use live_apply::components::{Gauge, Panel};
use live_apply::context::Cx;
use live_apply::erase::{
    AnyAction, AnyComponent, GaugeAction, GaugeFactory, LiveAction, LiveComponent, LiveFactory,
    PanelAction, PanelFactory,
};

#[test]
fn object_handle_identifies_stored_type() {
    // Cast soundness: a handle built from a Gauge answers `is` positively
    // for Gauge only, and projects back the identical value.
    let g = Gauge { a: 5 };
    let handle = g.to_any();
    assert!(handle.is::<Gauge>());
    assert!(!handle.is::<Panel>());
    assert_eq!(handle.type_id(), 11);
}

#[test]
fn object_cast_fails_closed() {
    let g = Gauge { a: 5 };
    let handle = g.to_any();
    let back = handle.cast::<Gauge>();
    assert_eq!(back, Some(&Gauge { a: 5 }));
    assert_eq!(handle.cast::<Panel>(), None);
}

#[test]
fn object_cast_mut_reaches_stored_value() {
    let mut handle = Panel { a: 1, b: 2 }.to_any();
    assert!(handle.is::<Panel>());
    if let Some(p) = handle.cast_mut::<Panel>() {
        // The reference starts at the stored value.
        assert_eq!(*p, Panel { a: 1, b: 2 });
        p.b = 7;
    } else {
        panic!("a panel handle must cast to a panel");
    }
    assert_eq!(handle.cast::<Panel>(), Some(&Panel { a: 1, b: 7 }));
}

#[test]
fn object_cast_mut_fails_closed() {
    // A mismatched mutable probe answers None and leaves the handle
    // untouched.
    let mut handle = Panel { a: 1, b: 2 }.to_any();
    assert!(handle.cast_mut::<Gauge>().is_none());
    assert_eq!(handle.cast::<Panel>(), Some(&Panel { a: 1, b: 2 }));
}

#[test]
fn factories_construct_their_registered_type() {
    let mut cx = Cx::new();
    let g = GaugeFactory.new_component(&mut cx);
    assert!(g.is::<Gauge>());
    let p = PanelFactory.new_component(&mut cx);
    assert!(p.is::<Panel>());
    assert_eq!(g.cast::<Gauge>(), Some(&Gauge { a: 0 }));
}

#[test]
fn action_cast_returns_stored_value() {
    let a = GaugeAction::Changed(5).to_any();
    assert!(a.is::<GaugeAction>());
    assert!(!a.is::<PanelAction>());
    assert_eq!(a.cast::<GaugeAction>(), GaugeAction::Changed(5));
}

#[test]
fn action_cast_degrades_safely() {
    // A mismatched action cast answers the probed type's default value
    // without panicking or mutating the handle.
    let a = GaugeAction::Changed(5).to_any();
    let before = a;
    let wrong: PanelAction = a.cast::<PanelAction>();
    assert_eq!(wrong, PanelAction::Idle);
    assert_eq!(wrong, PanelAction::default());
    assert_eq!(a, before);
    // And the right cast still answers the stored value afterwards.
    assert_eq!(a.cast::<GaugeAction>(), GaugeAction::Changed(5));
}

#[test]
fn action_cast_id_threads_the_identifier() {
    let a = PanelAction::Pressed.to_any();
    let (id, hit) = a.cast_id::<PanelAction>(42);
    assert_eq!(id, 42);
    assert_eq!(hit, PanelAction::Pressed);
    let (id2, miss) = a.cast_id::<GaugeAction>(43);
    assert_eq!(id2, 43);
    assert_eq!(miss, GaugeAction::Idle);
}

#[test]
fn action_box_clone_copies_the_handle() {
    let a = GaugeAction::Changed(9).to_any();
    let b = a.box_clone();
    assert_eq!(a, b);
    assert_eq!(b.cast::<GaugeAction>(), GaugeAction::Changed(9));
}

#[test]
fn action_handles_carry_distinct_tags() {
    assert_eq!(GaugeAction::live_type(), 21);
    assert_eq!(PanelAction::live_type(), 22);
    assert_eq!(GaugeAction::Idle.to_any().type_id(), 21);
    assert_eq!(PanelAction::Idle.to_any().type_id(), 22);
    assert_eq!(AnyAction::Gauge(GaugeAction::Idle).type_id(), 21);
    assert_eq!(AnyComponent::Gauge(Gauge { a: 0 }).type_id(), 11);
}

#[test]
fn action_defaults_are_inert() {
    assert_eq!(GaugeAction::default(), GaugeAction::Idle);
    assert_eq!(PanelAction::default(), PanelAction::Idle);
}
