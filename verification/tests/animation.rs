use live_apply::animate::{AnimCmd, AnimStyle, Event, LiveAnimate, Switch};
use live_apply::components::{Gauge, Panel, ID_A};
use live_apply::context::{Cx, LivePtr};
use live_apply::erase::{AnyAction, GaugeAction};
use live_apply::frame::FrameComponent;
use live_apply::live_node::{LiveNode, LiveValue};
use live_apply::live_traits::{ApplyFrom, LiveHook};

fn ptr(file_id: usize, index: usize) -> LivePtr {
    LivePtr { file_id, index }
}

#[test]
fn toggle_cuts_to_state1_without_animation() {
    // toggle_animator(is_state_1 = true, should_animate = false, ..)
    // invokes cut_to with state1, never touching state2.
    let state1 = ptr(0, 1);
    let state2 = ptr(0, 9);
    let mut cx = Cx::new();
    let mut sw = Switch::new();
    sw.toggle_animator(&mut cx, true, false, 3, state1, state2);
    assert_eq!(
        sw.animator.last_cmd,
        Some(AnimCmd { track: 3, target: state1, style: AnimStyle::Cut })
    );
}

#[test]
fn toggle_covers_the_four_branches() {
    let state1 = ptr(0, 1);
    let state2 = ptr(0, 9);
    let mut cx = Cx::new();
    let mut sw = Switch::new();
    sw.toggle_animator(&mut cx, true, true, 3, state1, state2);
    assert_eq!(
        sw.animator.last_cmd,
        Some(AnimCmd { track: 3, target: state1, style: AnimStyle::Ease })
    );
    sw.toggle_animator(&mut cx, false, true, 3, state1, state2);
    assert_eq!(
        sw.animator.last_cmd,
        Some(AnimCmd { track: 3, target: state2, style: AnimStyle::Ease })
    );
    sw.toggle_animator(&mut cx, false, false, 3, state1, state2);
    assert_eq!(
        sw.animator.last_cmd,
        Some(AnimCmd { track: 3, target: state2, style: AnimStyle::Cut })
    );
}

#[test]
fn cut_and_animate_route_commands() {
    let mut cx = Cx::new();
    let mut sw = Switch::new();
    sw.cut_to(&mut cx, 1, ptr(0, 2));
    assert_eq!(
        sw.animator.last_cmd,
        Some(AnimCmd { track: 1, target: ptr(0, 2), style: AnimStyle::Cut })
    );
    sw.animate_to(&mut cx, 1, ptr(0, 4));
    assert_eq!(
        sw.animator.last_cmd,
        Some(AnimCmd { track: 1, target: ptr(0, 4), style: AnimStyle::Ease })
    );
    sw.init_animator(&mut cx);
    assert_eq!(sw.animator.last_cmd, None);
}

#[test]
fn animator_handle_event_requests_redraw_while_animating() {
    let mut cx = Cx::new();
    let mut sw = Switch::new();
    let mut frame = Event::Frame;
    let mut signal = Event::Signal;
    assert!(!sw.animator_handle_event(&mut cx, &mut frame));
    sw.cut_to(&mut cx, 1, ptr(0, 2));
    assert!(sw.animator_handle_event(&mut cx, &mut frame));
    assert!(!sw.animator_handle_event(&mut cx, &mut signal));
}

#[test]
fn apply_from_variants() {
    assert!(ApplyFrom::NewFromDoc { file_id: 3 }.is_from_doc());
    assert!(ApplyFrom::UpdateFromDoc { file_id: 3 }.is_from_doc());
    assert!(!ApplyFrom::New.is_from_doc());
    assert!(!ApplyFrom::Animate.is_from_doc());
    assert!(!ApplyFrom::ApplyOver.is_from_doc());
    assert!(!ApplyFrom::ApplyClear.is_from_doc());
    assert_eq!(ApplyFrom::NewFromDoc { file_id: 3 }.file_id(), Some(3));
    assert_eq!(ApplyFrom::UpdateFromDoc { file_id: 4 }.file_id(), Some(4));
    assert_eq!(ApplyFrom::Animate.file_id(), None);
    assert_eq!(ApplyFrom::ApplyOver.file_id(), None);
}

#[test]
fn frame_component_answers_signals_with_actions() {
    let mut cx = Cx::new();
    let mut g = Gauge { a: 6 };
    let mut signal = Event::Signal;
    let mut frame = Event::Frame;
    let answer = g.handle_event_dyn(&mut cx, &mut signal);
    assert_eq!(answer, Some(AnyAction::Gauge(GaugeAction::Changed(6))));
    assert_eq!(g.handle_event_dyn(&mut cx, &mut frame), None);
}

#[test]
fn frame_component_apply_draw_merges_overlay() {
    let nodes = vec![
        LiveNode { id: 0, value: LiveValue::Open },
        LiveNode { id: ID_A, value: LiveValue::Int(13) },
        LiveNode { id: 0, value: LiveValue::Close },
    ];
    let mut cx = Cx::new();
    let mut g = Gauge { a: 0 };
    g.apply_draw(&mut cx, &nodes);
    assert_eq!(g.a, 13);
}

#[test]
fn frame_capability_is_opt_in() {
    let mut g = Gauge { a: 0 };
    assert!(g.to_frame_component());
    let mut p = Panel { a: 0, b: 0 };
    assert!(!p.to_frame_component());
}
