use live_apply::components::{Gauge, Panel, ID_A, ID_B};
use live_apply::context::{ApplyError, Cx};
use live_apply::live_node::{child_by_name, skip_node, LiveNode, LiveValue, ID_FROM};
use live_apply::live_traits::{ApplyFrom, LiveApply, LiveApplyValue, LiveHook, ToLiveValue};

fn node(id: u64, value: LiveValue) -> LiveNode {
    LiveNode { id, value }
}

fn fresh_cx() -> Cx {
    Cx::new()
}

#[test]
fn skip_node_scalar_and_nested() {
    // [Open, {5: Open}, {a: 1}, Close, Close]
    let nodes = vec![
        node(0, LiveValue::Open),
        node(5, LiveValue::Open),
        node(ID_A, LiveValue::Int(1)),
        node(0, LiveValue::Close),
        node(0, LiveValue::Close),
    ];
    assert_eq!(skip_node(&nodes, 0), 5);
    assert_eq!(skip_node(&nodes, 1), 4);
    assert_eq!(skip_node(&nodes, 2), 3);
}

#[test]
fn child_by_name_finds_direct_child() {
    let nodes = vec![
        node(0, LiveValue::Open),
        node(7, LiveValue::Open),
        node(ID_A, LiveValue::Int(4)),
        node(0, LiveValue::Close),
        node(9, LiveValue::Int(2)),
        node(0, LiveValue::Close),
    ];
    assert_eq!(child_by_name(&nodes, 0, 7), Some(1));
    assert_eq!(child_by_name(&nodes, 0, 9), Some(4));
    assert_eq!(child_by_name(&nodes, 0, 42), None);
    // The nested field `a` is not a direct child of the root.
    assert_eq!(child_by_name(&nodes, 0, ID_A), None);
}

#[test]
fn apply_advances_within_stream() {
    // For any well-formed subtree, apply returns an index strictly greater
    // than its input and never exceeding the stream length.
    let nodes = vec![
        node(0, LiveValue::Open),
        node(ID_A, LiveValue::Int(3)),
        node(0, LiveValue::Close),
    ];
    let mut cx = fresh_cx();
    let mut g = Gauge { a: 0 };
    let r = g.apply(&mut cx, ApplyFrom::New, 0, &nodes);
    assert!(r > 0 && r <= nodes.len());
    assert_eq!(r, 3);
    assert_eq!(g.a, 3);
}

#[test]
fn unknown_field_is_skipped_and_reported() {
    // Document declares {a: 1, b: 2}; Gauge only defines `a`: apply
    // succeeds, a == 1, one diagnostic, returned index points past b.
    let nodes = vec![
        node(0, LiveValue::Open),
        node(ID_A, LiveValue::Int(1)),
        node(ID_B, LiveValue::Int(2)),
        node(0, LiveValue::Close),
    ];
    let mut cx = fresh_cx();
    let mut g = Gauge { a: 5 };
    let r = g.apply(&mut cx, ApplyFrom::ApplyOver, 0, &nodes);
    assert_eq!(r, 4);
    assert_eq!(g.a, 1);
    assert_eq!(cx.errors.len(), 1);
    assert_eq!(cx.errors[0], ApplyError { index: 2, id: ID_B });
}

#[test]
fn unknown_object_subtree_is_consumed_whole() {
    // An unknown nested object is skipped structurally, one diagnostic.
    let nodes = vec![
        node(0, LiveValue::Open),
        node(77, LiveValue::Open),
        node(ID_A, LiveValue::Int(9)),
        node(0, LiveValue::Close),
        node(ID_A, LiveValue::Int(6)),
        node(0, LiveValue::Close),
    ];
    let mut cx = fresh_cx();
    let mut g = Gauge { a: 0 };
    let r = g.apply(&mut cx, ApplyFrom::ApplyOver, 0, &nodes);
    assert_eq!(r, 6);
    // The `a` inside the unknown object does not leak into the gauge; the
    // later top-level `a` does apply.
    assert_eq!(g.a, 6);
    assert_eq!(cx.errors.len(), 1);
    assert_eq!(cx.errors[0], ApplyError { index: 1, id: 77 });
}

#[test]
fn animate_from_field_is_silently_skipped() {
    // An ApplyFrom::Animate subtree carrying only the reserved `from`
    // field is consumed with zero diagnostics.
    let nodes = vec![
        node(0, LiveValue::Open),
        node(ID_FROM, LiveValue::Int(0)),
        node(0, LiveValue::Close),
    ];
    let mut cx = fresh_cx();
    let mut g = Gauge { a: 4 };
    let r = g.apply(&mut cx, ApplyFrom::Animate, 0, &nodes);
    assert_eq!(r, 3);
    assert_eq!(g.a, 4);
    assert_eq!(cx.errors.len(), 0);
}

#[test]
fn non_animate_from_field_is_reported() {
    // The same `from` field outside an animation apply is an ordinary
    // unknown field.
    let nodes = vec![
        node(0, LiveValue::Open),
        node(ID_FROM, LiveValue::Int(0)),
        node(0, LiveValue::Close),
    ];
    let mut cx = fresh_cx();
    let mut g = Gauge { a: 4 };
    g.apply(&mut cx, ApplyFrom::ApplyOver, 0, &nodes);
    assert_eq!(cx.errors.len(), 1);
}

#[test]
fn apply_over_leaves_unmentioned_fields() {
    let nodes = vec![
        node(0, LiveValue::Open),
        node(ID_A, LiveValue::Int(7)),
        node(0, LiveValue::Close),
    ];
    let mut cx = fresh_cx();
    let mut p = Panel { a: 3, b: 9 };
    p.apply_over(&mut cx, &nodes);
    assert_eq!(p, Panel { a: 7, b: 9 });
}

#[test]
fn apply_clear_resets_unmentioned_fields() {
    let nodes = vec![
        node(0, LiveValue::Open),
        node(ID_A, LiveValue::Int(7)),
        node(0, LiveValue::Close),
    ];
    let mut cx = fresh_cx();
    let mut p = Panel { a: 3, b: 9 };
    p.apply_clear(&mut cx, &nodes);
    assert_eq!(p, Panel { a: 7, b: 0 });
}

#[test]
fn apply_clear_twice_is_idempotent() {
    // Applying the same ApplyClear overlay twice yields the same state as
    // applying it once.
    let nodes = vec![
        node(0, LiveValue::Open),
        node(ID_A, LiveValue::Int(7)),
        node(0, LiveValue::Close),
    ];
    let mut cx = fresh_cx();
    let mut once = Panel { a: 3, b: 9 };
    once.apply_clear(&mut cx, &nodes);
    let mut twice = once;
    twice.apply_clear(&mut cx, &nodes);
    assert_eq!(once, twice);
}

#[test]
fn scalar_root_is_consumed_without_matching() {
    let nodes = vec![node(ID_A, LiveValue::Int(42))];
    let mut cx = fresh_cx();
    let mut g = Gauge { a: 5 };
    let r = g.apply(&mut cx, ApplyFrom::New, 0, &nodes);
    assert_eq!(r, 1);
    assert_eq!(g.a, 5);
    assert_eq!(cx.errors.len(), 0);
}

#[test]
fn apply_value_on_scalars() {
    let nodes = vec![
        node(ID_A, LiveValue::Int(12)),
        node(ID_B, LiveValue::Bool(true)),
    ];
    let mut cx = fresh_cx();
    let mut x: i64 = 0;
    assert_eq!(x.apply_value(&mut cx, ApplyFrom::New, 0, &nodes), 1);
    assert_eq!(x, 12);
    // A mismatched value shape leaves the field untouched but consumes it.
    assert_eq!(x.apply_value(&mut cx, ApplyFrom::New, 1, &nodes), 2);
    assert_eq!(x, 12);
    let mut f = false;
    assert_eq!(f.apply_value(&mut cx, ApplyFrom::New, 1, &nodes), 2);
    assert!(f);
}

#[test]
fn to_live_value_round_shape() {
    let x: i64 = 9;
    assert_eq!(x.to_live_value(), LiveValue::Int(9));
    let b = true;
    assert_eq!(b.to_live_value(), LiveValue::Bool(true));
}

#[test]
fn unknown_policy_default_reports() {
    let nodes = vec![node(33, LiveValue::Int(0))];
    let mut cx = fresh_cx();
    let mut g = Gauge { a: 0 };
    let r = g.apply_value_unknown(&mut cx, ApplyFrom::New, 0, &nodes);
    assert_eq!(r, 1);
    assert_eq!(cx.errors.len(), 1);
    assert_eq!(cx.errors[0], ApplyError { index: 0, id: 33 });
}
