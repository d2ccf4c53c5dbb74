//! The animation bridge: routing boolean UI state into the animator.
//!
//! The tween and state-graph math lives in the animator component outside
//! this crate; what this layer owns is the dispatch decision — which of
//! two registered states to head for, and whether to ease toward it or
//! snap to it instantly.  The animator is modelled here by the command it
//! was last given, which is exactly what the bridge decides.

use vstd::prelude::*;

use crate::context::{cx_preserved, lemma_prefix_refl, Cx, LivePtr};
use crate::live_node::LiveId;

verus! {

/// How the animator is asked to reach a target state.
#[derive(Clone, Copy, PartialEq, Eq, Structural, Debug)]
pub enum AnimStyle {
    /// Snap to the target instantly.
    Cut,
    /// Ease toward the target over time.
    Ease,
}

/// One routed animation command: a track, the registry pointer of the
/// target state, and how to get there.
#[derive(Clone, Copy, PartialEq, Eq, Structural, Debug)]
pub struct AnimCmd {
    /// The animation track the command addresses.
    pub track: LiveId,
    /// The document-registered state to head for.
    pub target: LivePtr,
    /// Ease or snap.
    pub style: AnimStyle,
}

/// The animator at this layer's boundary: the last command routed into
/// it.  Everything else about animation lives outside this crate.
#[derive(Clone, Copy, PartialEq, Eq, Debug)]
pub struct Animator {
    /// The last command received, if any.
    pub last_cmd: Option<AnimCmd>,
}

/// An event arriving from the event loop, reduced to the two kinds the
/// bridge distinguishes.
#[derive(Clone, Copy, PartialEq, Eq, Structural, Debug)]
pub enum Event {
    /// A new animation frame tick.
    Frame,
    /// Any other signal.
    Signal,
}

/// The animation bridge.  `toggle_animator` is pure dispatch: a two-state,
/// four-branch decision table with no state of its own.
pub trait LiveAnimate {
    /// The last command this object's animator received.
    spec fn last_anim(self) -> Option<AnimCmd>;

    /// Puts the animator into its initial state.
    fn init_animator(&mut self, cx: &mut Cx)
        ensures
            cx_preserved(*old(cx), *final(cx)),
    ;

    /// Re-applies the animator's current state to the object.
    fn apply_animator(&mut self, cx: &mut Cx)
        ensures
            cx_preserved(*old(cx), *final(cx)),
    ;

    /// Snaps instantly to `state` on `track`.
    fn cut_to(&mut self, cx: &mut Cx, track: LiveId, state: LivePtr)
        ensures
            final(self).last_anim() == Option::Some(
                AnimCmd { track, target: state, style: AnimStyle::Cut },
            ),
            cx_preserved(*old(cx), *final(cx)),
    ;

    /// Eases toward `state` on `track`.
    fn animate_to(&mut self, cx: &mut Cx, track: LiveId, state: LivePtr)
        ensures
            final(self).last_anim() == Option::Some(
                AnimCmd { track, target: state, style: AnimStyle::Ease },
            ),
            cx_preserved(*old(cx), *final(cx)),
    ;

    /// Selects `state1` or `state2` by `is_state_1`, then eases toward it
    /// or snaps to it by `should_animate`.  The state not selected is
    /// never routed anywhere.
    fn toggle_animator(
        &mut self,
        cx: &mut Cx,
        is_state_1: bool,
        should_animate: bool,
        track: LiveId,
        state1: LivePtr,
        state2: LivePtr,
    )
        ensures
            final(self).last_anim() == Option::Some(
                AnimCmd {
                    track,
                    target: if is_state_1 {
                        state1
                    } else {
                        state2
                    },
                    style: if should_animate {
                        AnimStyle::Ease
                    } else {
                        AnimStyle::Cut
                    },
                },
            ),
            cx_preserved(*old(cx), *final(cx)),
    {
        if is_state_1 {
            if should_animate {
                self.animate_to(cx, track, state1)
            } else {
                self.cut_to(cx, track, state1)
            }
        } else {
            if should_animate {
                self.animate_to(cx, track, state2)
            } else {
                self.cut_to(cx, track, state2)
            }
        }
    }

    /// Advances animation state in response to an event; the answer says
    /// whether a redraw is needed.
    fn animator_handle_event(&mut self, cx: &mut Cx, event: &mut Event) -> (redraw: bool)
        ensures
            cx_preserved(*old(cx), *final(cx)),
    ;
}

/// A sample animated object: a two-state switch whose animator records the
/// last routed command.
#[derive(Clone, Copy, PartialEq, Eq, Debug)]
pub struct Switch {
    /// The switch's animator.
    pub animator: Animator,
}

impl Switch {
    /// A switch whose animator has received no command yet.
    pub fn new() -> (r: Switch)
        ensures
            r.last_anim() is None,
    {
        Switch { animator: Animator { last_cmd: None } }
    }
}

impl LiveAnimate for Switch {
    open spec fn last_anim(self) -> Option<AnimCmd> {
        self.animator.last_cmd
    }

    fn init_animator(&mut self, cx: &mut Cx)
        ensures
            final(self).last_anim() is None,
            *final(cx) == *old(cx),
    {
        self.animator.last_cmd = None;
        proof {
            lemma_prefix_refl(cx.errors@);
        }
    }

    /// A switch has no document state of its own to re-apply.
    fn apply_animator(&mut self, cx: &mut Cx)
        ensures
            *final(self) == *old(self),
            *final(cx) == *old(cx),
    {
        proof {
            lemma_prefix_refl(cx.errors@);
        }
    }

    fn cut_to(&mut self, cx: &mut Cx, track: LiveId, state: LivePtr) {
        self.animator.last_cmd = Some(AnimCmd { track, target: state, style: AnimStyle::Cut });
        proof {
            lemma_prefix_refl(cx.errors@);
        }
    }

    fn animate_to(&mut self, cx: &mut Cx, track: LiveId, state: LivePtr) {
        self.animator.last_cmd = Some(AnimCmd { track, target: state, style: AnimStyle::Ease });
        proof {
            lemma_prefix_refl(cx.errors@);
        }
    }

    /// A frame tick redraws while a command is pending; other signals do
    /// not touch the animator.
    fn animator_handle_event(&mut self, cx: &mut Cx, event: &mut Event) -> (redraw: bool)
        ensures
            *final(self) == *old(self),
            *final(cx) == *old(cx),
            redraw == (*old(event) is Frame && old(self).last_anim() is Some),
    {
        proof {
            lemma_prefix_refl(cx.errors@);
        }
        match event {
            Event::Frame => self.animator.last_cmd.is_some(),
            Event::Signal => false,
        }
    }
}

} // verus!
