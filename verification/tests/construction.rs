use live_apply::components::{Gauge, Panel, ID_A, ID_B, WIDGETS_MODULE};
use live_apply::context::{Cx, LiveDocument, LivePtr, LiveRegistry};
use live_apply::live_node::{LiveNode, LiveValue};
use live_apply::live_traits::{
    new_apply_siblings, ApplyFrom, LiveApply, LiveNew,
};

fn node(id: u64, value: LiveValue) -> LiveNode {
    LiveNode { id, value }
}

fn gauge_doc() -> Vec<LiveNode> {
    // { 7: { a: 4 }, 9: { a: 1, b: 2 } }
    vec![
        node(0, LiveValue::Open),
        node(7, LiveValue::Open),
        node(ID_A, LiveValue::Int(4)),
        node(0, LiveValue::Close),
        node(9, LiveValue::Open),
        node(ID_A, LiveValue::Int(1)),
        node(ID_B, LiveValue::Int(2)),
        node(0, LiveValue::Close),
        node(0, LiveValue::Close),
    ]
}

fn registry_cx() -> Cx {
    Cx {
        registry: LiveRegistry {
            files: vec![LiveDocument { module_id: WIDGETS_MODULE, nodes: gauge_doc() }],
        },
        errors: Vec::new(),
    }
}

#[test]
fn new_apply_builds_and_applies() {
    let nodes = vec![
        node(0, LiveValue::Open),
        node(ID_A, LiveValue::Int(11)),
        node(0, LiveValue::Close),
    ];
    let mut cx = Cx::new();
    let g = Gauge::new_apply(&mut cx, ApplyFrom::New, 0, &nodes);
    assert_eq!(g, Gauge { a: 11 });
}

#[test]
fn new_apply_mut_advances_cursor() {
    // Two sibling objects; constructing the first inline leaves the cursor
    // at the second.
    let nodes = vec![
        node(0, LiveValue::Open),
        node(ID_A, LiveValue::Int(1)),
        node(0, LiveValue::Close),
        node(0, LiveValue::Open),
        node(ID_A, LiveValue::Int(2)),
        node(0, LiveValue::Close),
    ];
    let mut cx = Cx::new();
    let mut index: usize = 0;
    let first = Gauge::new_apply_mut(&mut cx, ApplyFrom::New, &mut index, &nodes);
    assert_eq!(index, 3);
    assert_eq!(first.a, 1);
    let second = Gauge::new_apply_mut(&mut cx, ApplyFrom::New, &mut index, &nodes);
    assert_eq!(index, 6);
    assert_eq!(second.a, 2);
}

#[test]
fn sibling_run_visits_each_once() {
    // Monotonic resumption: repeated apply with each returned index visits
    // every sibling exactly once and consumes the whole run.
    let nodes = vec![
        node(0, LiveValue::Open),
        node(ID_A, LiveValue::Int(1)),
        node(0, LiveValue::Close),
        node(0, LiveValue::Open),
        node(ID_A, LiveValue::Int(2)),
        node(0, LiveValue::Close),
        node(0, LiveValue::Open),
        node(ID_A, LiveValue::Int(3)),
        node(0, LiveValue::Close),
    ];
    let mut cx = Cx::new();
    let gauges: Vec<Gauge> = new_apply_siblings(&mut cx, ApplyFrom::New, 0, 9, &nodes);
    assert_eq!(gauges.len(), 3);
    assert_eq!(gauges[0].a, 1);
    assert_eq!(gauges[1].a, 2);
    assert_eq!(gauges[2].a, 3);
}

#[test]
fn new_from_ptr_resolves_document() {
    let mut cx = registry_cx();
    // Point straight at the `7` child object inside the registered doc.
    let g = Gauge::new_from_ptr(&mut cx, LivePtr { file_id: 0, index: 1 });
    assert_eq!(g, Gauge { a: 4 });
    assert_eq!(cx.errors.len(), 0);
}

#[test]
fn new_from_module_path_id_constructs_named_child() {
    let mut cx = registry_cx();
    let g = Gauge::new_from_module_path_id(&mut cx, WIDGETS_MODULE, 7);
    assert_eq!(g, Some(Gauge { a: 4 }));
}

#[test]
fn new_from_module_path_id_reports_unknown_fields() {
    let mut cx = registry_cx();
    // Child `9` declares `a` and `b`; a gauge only knows `a`.
    let g = Gauge::new_from_module_path_id(&mut cx, WIDGETS_MODULE, 9);
    assert_eq!(g, Some(Gauge { a: 1 }));
    assert_eq!(cx.errors.len(), 1);
    // A panel knows both fields.
    let mut cx2 = registry_cx();
    let p = Panel::new_from_module_path_id(&mut cx2, WIDGETS_MODULE, 9);
    assert_eq!(p, Some(Panel { a: 1, b: 2 }));
    assert_eq!(cx2.errors.len(), 0);
}

#[test]
fn new_from_module_path_id_misses_are_absent_results() {
    let mut cx = registry_cx();
    assert_eq!(Gauge::new_from_module_path_id(&mut cx, 999, 7), None);
    assert_eq!(Gauge::new_from_module_path_id(&mut cx, WIDGETS_MODULE, 42), None);
    assert_eq!(cx.errors.len(), 0);
}

#[test]
fn option_materializes_on_first_contact() {
    // Applying into a None-valued optional produces Some(v) where v equals
    // what direct construction + apply on the inner type produces.
    let nodes = vec![
        node(0, LiveValue::Open),
        node(ID_A, LiveValue::Int(8)),
        node(0, LiveValue::Close),
    ];
    let mut cx = Cx::new();
    let mut opt: Option<Gauge> = None;
    let r = opt.apply(&mut cx, ApplyFrom::ApplyOver, 0, &nodes);
    assert_eq!(r, 3);
    let direct = Gauge::new_apply(&mut cx, ApplyFrom::ApplyOver, 0, &nodes);
    assert_eq!(opt, Some(direct));
}

#[test]
fn option_delegates_when_present() {
    let nodes = vec![
        node(0, LiveValue::Open),
        node(ID_A, LiveValue::Int(8)),
        node(0, LiveValue::Close),
    ];
    let mut cx = Cx::new();
    let mut opt: Option<Gauge> = Some(Gauge { a: 2 });
    opt.apply(&mut cx, ApplyFrom::ApplyOver, 0, &nodes);
    assert_eq!(opt, Some(Gauge { a: 8 }));
}

#[test]
fn option_construction_is_absent() {
    let mut cx = Cx::new();
    let opt: Option<Gauge> = Option::<Gauge>::new(&mut cx);
    assert_eq!(opt, None);
}

#[test]
fn live_type_identity() {
    assert_eq!(Gauge::live_type(), 11);
    assert_eq!(Panel::live_type(), 12);
    assert_eq!(Gauge::live_type_info().live_type, 11);
    assert_eq!(Gauge::live_type_info().module_id, WIDGETS_MODULE);
    let g = Gauge { a: 0 };
    assert_eq!(g.type_id(), 11);
}

#[test]
fn optional_wrapper_has_a_tag_of_its_own() {
    // The wrapper is a type of its own: its tag is derived from the inner
    // type's, but an Option<Gauge> never identifies itself as a Gauge.
    assert_ne!(Option::<Gauge>::live_type(), Gauge::live_type());
    assert_ne!(Option::<Panel>::live_type(), Panel::live_type());
    assert_ne!(Option::<Gauge>::live_type(), Option::<Panel>::live_type());
    let opt: Option<Gauge> = Some(Gauge { a: 0 });
    assert_eq!(opt.type_id(), Option::<Gauge>::live_type());
    assert_eq!(
        Option::<Gauge>::live_type_info().live_type,
        Option::<Gauge>::live_type()
    );
    assert_eq!(Option::<Gauge>::live_type_info().module_id, WIDGETS_MODULE);
}
