//! The optional drawable/handleable capability: components opt into the
//! event/draw loop's dispatch path without every appliable object carrying
//! that surface.

use vstd::prelude::*;

use crate::animate::Event;
use crate::components::Gauge;
use crate::context::{cx_preserved, lemma_prefix_concat, lemma_prefix_refl, Cx};
use crate::erase::{AnyAction, GaugeAction, LiveAction, OptionAnyAction};
use crate::live_node::{subtree_wf, LiveNode};
use crate::live_traits::{ApplyFrom, LiveApply};

verus! {

/// The drawable/handleable component surface, funnelled through one
/// dispatch path by the erased-action answer type.
pub trait FrameComponent: LiveApply {
    /// Handles one event; the answer, if any, is an erased action for the
    /// caller's dispatch table.
    fn handle_event_dyn(&mut self, cx: &mut Cx, event: &mut Event) -> (r: OptionAnyAction)
        ensures
            cx_preserved(*old(cx), *final(cx)),
    ;

    /// Draws the component.  Drawing happens outside this layer's model,
    /// so the apply-visible state, the registry and the diagnostics are
    /// all untouched.
    fn draw_dyn(&mut self, cx: &mut Cx)
        ensures
            *final(self) == *old(self),
            *final(cx) == *old(cx),
    ;

    /// Merges an overlay and immediately redraws with it: what is drawn
    /// is the state the overlay produced.
    fn apply_draw(&mut self, cx: &mut Cx, nodes: &Vec<LiveNode>)
        requires
            subtree_wf(nodes@, 0),
        ensures
            *final(self) == old(self).apply_spec(ApplyFrom::ApplyOver, 0, nodes@),
            final(cx).errors@ == old(cx).errors@ + old(self).apply_errors_spec(
                ApplyFrom::ApplyOver,
                0,
                nodes@,
            ),
            cx_preserved(*old(cx), *final(cx)),
    {
        self.apply_over(cx, nodes);
        self.draw_dyn(cx);
        proof {
            lemma_prefix_concat(
                old(cx).errors@,
                old(self).apply_errors_spec(ApplyFrom::ApplyOver, 0, nodes@),
            );
        }
    }
}

impl FrameComponent for Gauge {
    /// A signal announces the gauge's current value as an erased action; a
    /// frame tick is not answered.
    fn handle_event_dyn(&mut self, cx: &mut Cx, event: &mut Event) -> (r: OptionAnyAction)
        ensures
            *final(self) == *old(self),
            *final(cx) == *old(cx),
            r == (match *old(event) {
                Event::Signal => Option::Some(GaugeAction::Changed(old(self).a).to_any_spec()),
                Event::Frame => Option::<AnyAction>::None,
            }),
    {
        proof {
            lemma_prefix_refl(cx.errors@);
        }
        match event {
            Event::Signal => Some(GaugeAction::Changed(self.a).to_any()),
            Event::Frame => None,
        }
    }

    fn draw_dyn(&mut self, cx: &mut Cx) {
    }
}

} // verus!
