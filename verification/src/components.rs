//! Sample components that instantiate the apply protocol.
//!
//! The protocol itself is generic; these two concrete widgets give it a
//! closed component set to erase behind a common handle, and exercise the
//! field walk end to end: `Gauge` recognises the single field `a`, `Panel`
//! recognises `a` and `b`.  Any field a document mentions beyond those is
//! consumed structurally and reported through the unknown-field policy.

use vstd::prelude::*;

use crate::context::{lemma_prefix_concat, ApplyError, Cx};
use crate::live_node::{
    lemma_field_wf, lemma_skip_from_bounds, lemma_subtree_extent, skip_from, skip_node,
    skip_node_spec, LiveId, LiveModuleId, LiveNode, LiveValue,
};
use crate::live_traits::{
    apply_value_unknown_default, fold_errors, fold_fields, unknown_error_spec, ApplyFrom,
    LiveApply, LiveApplyValue, LiveHook, LiveNew, LiveType, LiveTypeInfo,
};

verus! {

/// Field identifier `a`, recognised by both sample components.
pub const ID_A: LiveId = 1;

/// Field identifier `b`, recognised by [`Panel`] only.
pub const ID_B: LiveId = 2;

/// Identity tag of [`Gauge`].
pub const GAUGE_LIVE_TYPE: LiveType = 11;

/// Identity tag of [`Panel`].
pub const PANEL_LIVE_TYPE: LiveType = 12;

/// The module the sample components register under.
pub const WIDGETS_MODULE: LiveModuleId = 100;

/// A component with a single integer field `a`.
#[derive(Clone, Copy, PartialEq, Eq, Structural, Debug)]
pub struct Gauge {
    /// The field bound to [`ID_A`].
    pub a: i64,
}

/// A component with two integer fields `a` and `b`.
#[derive(Clone, Copy, PartialEq, Eq, Structural, Debug)]
pub struct Panel {
    /// The field bound to [`ID_A`].
    pub a: i64,
    /// The field bound to [`ID_B`].
    pub b: i64,
}

/// How one top-level field node changes a [`Gauge`].
pub open spec fn gauge_step(s: Gauge, nodes: Seq<LiveNode>, j: int) -> Gauge {
    if nodes[j].id == ID_A {
        Gauge { a: s.a.apply_value_spec(j, nodes) }
    } else {
        s
    }
}

/// The field identifiers a [`Gauge`] recognises.
pub open spec fn gauge_known(id: LiveId) -> bool {
    id == ID_A
}

/// A [`Gauge`]'s state after walking the field region starting at `j`.
pub open spec fn gauge_fold(s: Gauge, nodes: Seq<LiveNode>, j: int) -> Gauge {
    fold_fields(s, |s2: Gauge, ns: Seq<LiveNode>, k: int| gauge_step(s2, ns, k), nodes, j)
}

/// The diagnostics a [`Gauge`] walk emits from `j` on.
pub open spec fn gauge_errors_from(
    apply_from: ApplyFrom,
    nodes: Seq<LiveNode>,
    j: int,
) -> Seq<ApplyError> {
    fold_errors(|id: LiveId| gauge_known(id), apply_from, nodes, j)
}

/// The diagnostics one whole `apply` call on a [`Gauge`] emits.
pub open spec fn gauge_errors(
    apply_from: ApplyFrom,
    index: int,
    nodes: Seq<LiveNode>,
) -> Seq<ApplyError> {
    if nodes[index].value is Open {
        gauge_errors_from(apply_from, nodes, index + 1)
    } else {
        Seq::empty()
    }
}

impl LiveHook for Gauge {
    fn before_apply(
        &mut self,
        cx: &mut Cx,
        apply_from: ApplyFrom,
        index: usize,
        nodes: &Vec<LiveNode>,
    )
        ensures
            *final(self) == *old(self),
            *final(cx) == *old(cx),
    {
    }

    fn after_apply(
        &mut self,
        cx: &mut Cx,
        apply_from: ApplyFrom,
        index: usize,
        nodes: &Vec<LiveNode>,
    )
        ensures
            *final(self) == *old(self),
            *final(cx) == *old(cx),
    {
    }

    fn apply_value_unknown(
        &mut self,
        cx: &mut Cx,
        apply_from: ApplyFrom,
        index: usize,
        nodes: &Vec<LiveNode>,
    ) -> (r: usize)
        ensures
            *final(self) == *old(self),
            final(cx).errors@ == old(cx).errors@ + unknown_error_spec(
                apply_from,
                nodes@,
                index as int,
            ),
            final(cx).registry == old(cx).registry,
    {
        let r = apply_value_unknown_default(cx, apply_from, index, nodes);
        proof {
            lemma_prefix_concat(
                old(cx).errors@,
                unknown_error_spec(apply_from, nodes@, index as int),
            );
        }
        r
    }

    /// A gauge opts into the drawable/handleable component surface.
    fn to_frame_component(&mut self) -> (r: bool)
        ensures
            r,
    {
        true
    }
}

impl LiveApply for Gauge {
    open spec fn type_id_spec() -> LiveType {
        GAUGE_LIVE_TYPE
    }

    /// A clear overlay resets `a` to its default before the walk; any
    /// other apply starts from the current state.  A scalar at the root is
    /// consumed without matching any field.
    open spec fn apply_spec(self, apply_from: ApplyFrom, index: int, nodes: Seq<LiveNode>) -> Gauge {
        let s0 = if apply_from is ApplyClear {
            Gauge { a: 0 }
        } else {
            self
        };
        if nodes[index].value is Open {
            gauge_fold(s0, nodes, index + 1)
        } else {
            s0
        }
    }

    /// One unknown-field report per unrecognised top-level field.
    open spec fn apply_errors_spec(
        self,
        apply_from: ApplyFrom,
        index: int,
        nodes: Seq<LiveNode>,
    ) -> Seq<ApplyError> {
        gauge_errors(apply_from, index, nodes)
    }

    proof fn apply_clear_idempotent(self, index: int, nodes: Seq<LiveNode>) {
    }

    fn apply(
        &mut self,
        cx: &mut Cx,
        apply_from: ApplyFrom,
        index: usize,
        nodes: &Vec<LiveNode>,
    ) -> (r: usize) {
        self.before_apply(cx, apply_from, index, nodes);
        if let ApplyFrom::ApplyClear = apply_from {
            self.a = 0;
        }
        let ghost s0 = if apply_from is ApplyClear {
            Gauge { a: 0 }
        } else {
            *old(self)
        };
        proof {
            assert(*self == s0);
            lemma_subtree_extent(nodes@, index as int);
        }
        let ghost e = skip_node_spec(nodes@, index as int);
        let mut out: usize = 0;
        let is_open = match nodes[index].value {
            LiveValue::Open => true,
            _ => false,
        };
        if is_open {
            let n = nodes.len();
            let mut j: usize = index + 1;
            loop
                invariant
                    n == nodes@.len(),
                    index < j <= n,
                    skip_from(nodes@, j as int, 1) == e,
                    e == skip_node_spec(nodes@, index as int),
                    nodes@[index as int].value is Open,
                    index < e <= n,
                    gauge_fold(*self, nodes@, j as int) == gauge_fold(s0, nodes@, index + 1),
                    cx.errors@ + gauge_errors_from(apply_from, nodes@, j as int) == old(
                        cx,
                    ).errors@ + gauge_errors_from(apply_from, nodes@, index + 1),
                    cx.registry == old(cx).registry,
                ensures
                    *self == gauge_fold(s0, nodes@, index + 1),
                    cx.errors@ == old(cx).errors@ + gauge_errors_from(apply_from, nodes@, index + 1),
                    cx.registry == old(cx).registry,
                    out == e,
                decreases n - j,
            {
                proof {
                    lemma_skip_from_bounds(nodes@, j as int, 1);
                }
                let node = nodes[j];
                if let LiveValue::Close = node.value {
                    proof {
                        assert(skip_from(nodes@, j as int, 1) == j + 1);
                        assert(gauge_fold(*self, nodes@, j as int) == *self);
                        assert(gauge_errors_from(apply_from, nodes@, j as int)
                            =~= Seq::<ApplyError>::empty());
                        assert(cx.errors@ + gauge_errors_from(apply_from, nodes@, j as int)
                            =~= cx.errors@);
                    }
                    out = j + 1;
                    break ;
                }
                proof {
                    lemma_field_wf(nodes@, j as int);
                    lemma_subtree_extent(nodes@, j as int);
                }
                let ghost j0 = j as int;
                let ghost self0 = *self;
                let ghost cx_mid = *cx;
                let ghost k0 = skip_node_spec(nodes@, j0);
                if node.id == ID_A {
                    let k = self.a.apply_value(cx, apply_from, j, nodes);
                    proof {
                        assert(*self == Gauge { a: self.a });
                        assert(gauge_step(self0, nodes@, j0) == *self);
                        assert(gauge_fold(self0, nodes@, j0) == gauge_fold(*self, nodes@, k0));
                        assert(gauge_errors_from(apply_from, nodes@, j0) =~= gauge_errors_from(
                            apply_from,
                            nodes@,
                            k0,
                        ));
                    }
                    j = k;
                } else {
                    let k = self.apply_value_unknown(cx, apply_from, j, nodes);
                    proof {
                        assert(gauge_step(self0, nodes@, j0) == self0);
                        assert(gauge_fold(self0, nodes@, j0) == gauge_fold(*self, nodes@, k0));
                        assert(gauge_errors_from(apply_from, nodes@, j0) =~= unknown_error_spec(
                            apply_from,
                            nodes@,
                            j0,
                        ) + gauge_errors_from(apply_from, nodes@, k0));
                        assert(cx.errors@ + gauge_errors_from(apply_from, nodes@, k0)
                            =~= cx_mid.errors@ + gauge_errors_from(apply_from, nodes@, j0));
                    }
                    j = k;
                }
            }
        } else {
            proof {
                assert(skip_node_spec(nodes@, index as int) == index + 1);
                assert(cx.errors@ =~= cx.errors@ + Seq::<ApplyError>::empty());
            }
            out = skip_node(nodes, index);
        }
        self.after_apply(cx, apply_from, index, nodes);
        proof {
            lemma_prefix_concat(old(cx).errors@, gauge_errors(apply_from, index as int, nodes@));
        }
        out
    }

    fn type_id(&self) -> (t: LiveType) {
        GAUGE_LIVE_TYPE
    }
}

impl LiveNew for Gauge {
    /// A bare gauge starts at zero.
    open spec fn new_spec() -> Gauge {
        Gauge { a: 0 }
    }

    fn new(cx: &mut Cx) -> (r: Gauge) {
        Gauge { a: 0 }
    }

    fn live_type() -> (t: LiveType) {
        GAUGE_LIVE_TYPE
    }

    fn live_type_info() -> (r: LiveTypeInfo) {
        LiveTypeInfo { live_type: GAUGE_LIVE_TYPE, module_id: WIDGETS_MODULE }
    }
}

/// How one top-level field node changes a [`Panel`].
pub open spec fn panel_step(s: Panel, nodes: Seq<LiveNode>, j: int) -> Panel {
    if nodes[j].id == ID_A {
        Panel { a: s.a.apply_value_spec(j, nodes), b: s.b }
    } else if nodes[j].id == ID_B {
        Panel { a: s.a, b: s.b.apply_value_spec(j, nodes) }
    } else {
        s
    }
}

/// The field identifiers a [`Panel`] recognises.
pub open spec fn panel_known(id: LiveId) -> bool {
    id == ID_A || id == ID_B
}

/// A [`Panel`]'s state after walking the field region starting at `j`.
pub open spec fn panel_fold(s: Panel, nodes: Seq<LiveNode>, j: int) -> Panel {
    fold_fields(s, |s2: Panel, ns: Seq<LiveNode>, k: int| panel_step(s2, ns, k), nodes, j)
}

/// The diagnostics a [`Panel`] walk emits from `j` on.
pub open spec fn panel_errors_from(
    apply_from: ApplyFrom,
    nodes: Seq<LiveNode>,
    j: int,
) -> Seq<ApplyError> {
    fold_errors(|id: LiveId| panel_known(id), apply_from, nodes, j)
}

/// The diagnostics one whole `apply` call on a [`Panel`] emits.
pub open spec fn panel_errors(
    apply_from: ApplyFrom,
    index: int,
    nodes: Seq<LiveNode>,
) -> Seq<ApplyError> {
    if nodes[index].value is Open {
        panel_errors_from(apply_from, nodes, index + 1)
    } else {
        Seq::empty()
    }
}

impl LiveHook for Panel {
    fn before_apply(
        &mut self,
        cx: &mut Cx,
        apply_from: ApplyFrom,
        index: usize,
        nodes: &Vec<LiveNode>,
    )
        ensures
            *final(self) == *old(self),
            *final(cx) == *old(cx),
    {
    }

    fn after_apply(
        &mut self,
        cx: &mut Cx,
        apply_from: ApplyFrom,
        index: usize,
        nodes: &Vec<LiveNode>,
    )
        ensures
            *final(self) == *old(self),
            *final(cx) == *old(cx),
    {
    }

    fn apply_value_unknown(
        &mut self,
        cx: &mut Cx,
        apply_from: ApplyFrom,
        index: usize,
        nodes: &Vec<LiveNode>,
    ) -> (r: usize)
        ensures
            *final(self) == *old(self),
            final(cx).errors@ == old(cx).errors@ + unknown_error_spec(
                apply_from,
                nodes@,
                index as int,
            ),
            final(cx).registry == old(cx).registry,
    {
        let r = apply_value_unknown_default(cx, apply_from, index, nodes);
        proof {
            lemma_prefix_concat(
                old(cx).errors@,
                unknown_error_spec(apply_from, nodes@, index as int),
            );
        }
        r
    }

    /// A panel does not offer the drawable/handleable component surface.
    fn to_frame_component(&mut self) -> (r: bool)
        ensures
            !r,
    {
        false
    }
}

impl LiveApply for Panel {
    open spec fn type_id_spec() -> LiveType {
        PANEL_LIVE_TYPE
    }

    /// A clear overlay resets both fields to their defaults before the
    /// walk; any other apply starts from the current state.
    open spec fn apply_spec(self, apply_from: ApplyFrom, index: int, nodes: Seq<LiveNode>) -> Panel {
        let s0 = if apply_from is ApplyClear {
            Panel { a: 0, b: 0 }
        } else {
            self
        };
        if nodes[index].value is Open {
            panel_fold(s0, nodes, index + 1)
        } else {
            s0
        }
    }

    /// One unknown-field report per unrecognised top-level field.
    open spec fn apply_errors_spec(
        self,
        apply_from: ApplyFrom,
        index: int,
        nodes: Seq<LiveNode>,
    ) -> Seq<ApplyError> {
        panel_errors(apply_from, index, nodes)
    }

    proof fn apply_clear_idempotent(self, index: int, nodes: Seq<LiveNode>) {
    }

    fn apply(
        &mut self,
        cx: &mut Cx,
        apply_from: ApplyFrom,
        index: usize,
        nodes: &Vec<LiveNode>,
    ) -> (r: usize) {
        self.before_apply(cx, apply_from, index, nodes);
        if let ApplyFrom::ApplyClear = apply_from {
            self.a = 0;
            self.b = 0;
        }
        let ghost s0 = if apply_from is ApplyClear {
            Panel { a: 0, b: 0 }
        } else {
            *old(self)
        };
        proof {
            assert(*self == s0);
            lemma_subtree_extent(nodes@, index as int);
        }
        let ghost e = skip_node_spec(nodes@, index as int);
        let mut out: usize = 0;
        let is_open = match nodes[index].value {
            LiveValue::Open => true,
            _ => false,
        };
        if is_open {
            let n = nodes.len();
            let mut j: usize = index + 1;
            loop
                invariant
                    n == nodes@.len(),
                    index < j <= n,
                    skip_from(nodes@, j as int, 1) == e,
                    e == skip_node_spec(nodes@, index as int),
                    nodes@[index as int].value is Open,
                    index < e <= n,
                    panel_fold(*self, nodes@, j as int) == panel_fold(s0, nodes@, index + 1),
                    cx.errors@ + panel_errors_from(apply_from, nodes@, j as int) == old(
                        cx,
                    ).errors@ + panel_errors_from(apply_from, nodes@, index + 1),
                    cx.registry == old(cx).registry,
                ensures
                    *self == panel_fold(s0, nodes@, index + 1),
                    cx.errors@ == old(cx).errors@ + panel_errors_from(apply_from, nodes@, index + 1),
                    cx.registry == old(cx).registry,
                    out == e,
                decreases n - j,
            {
                proof {
                    lemma_skip_from_bounds(nodes@, j as int, 1);
                }
                let node = nodes[j];
                if let LiveValue::Close = node.value {
                    proof {
                        assert(skip_from(nodes@, j as int, 1) == j + 1);
                        assert(panel_fold(*self, nodes@, j as int) == *self);
                        assert(panel_errors_from(apply_from, nodes@, j as int)
                            =~= Seq::<ApplyError>::empty());
                        assert(cx.errors@ + panel_errors_from(apply_from, nodes@, j as int)
                            =~= cx.errors@);
                    }
                    out = j + 1;
                    break ;
                }
                proof {
                    lemma_field_wf(nodes@, j as int);
                    lemma_subtree_extent(nodes@, j as int);
                }
                let ghost j0 = j as int;
                let ghost self0 = *self;
                let ghost cx_mid = *cx;
                let ghost k0 = skip_node_spec(nodes@, j0);
                if node.id == ID_A {
                    let k = self.a.apply_value(cx, apply_from, j, nodes);
                    proof {
                        assert(*self == Panel { a: self.a, b: self.b });
                        assert(panel_step(self0, nodes@, j0) == *self);
                        assert(panel_fold(self0, nodes@, j0) == panel_fold(*self, nodes@, k0));
                        assert(panel_errors_from(apply_from, nodes@, j0) =~= panel_errors_from(
                            apply_from,
                            nodes@,
                            k0,
                        ));
                    }
                    j = k;
                } else if node.id == ID_B {
                    let k = self.b.apply_value(cx, apply_from, j, nodes);
                    proof {
                        assert(*self == Panel { a: self.a, b: self.b });
                        assert(panel_step(self0, nodes@, j0) == *self);
                        assert(panel_fold(self0, nodes@, j0) == panel_fold(*self, nodes@, k0));
                        assert(panel_errors_from(apply_from, nodes@, j0) =~= panel_errors_from(
                            apply_from,
                            nodes@,
                            k0,
                        ));
                    }
                    j = k;
                } else {
                    let k = self.apply_value_unknown(cx, apply_from, j, nodes);
                    proof {
                        assert(panel_step(self0, nodes@, j0) == self0);
                        assert(panel_fold(self0, nodes@, j0) == panel_fold(*self, nodes@, k0));
                        assert(panel_errors_from(apply_from, nodes@, j0) =~= unknown_error_spec(
                            apply_from,
                            nodes@,
                            j0,
                        ) + panel_errors_from(apply_from, nodes@, k0));
                        assert(cx.errors@ + panel_errors_from(apply_from, nodes@, k0)
                            =~= cx_mid.errors@ + panel_errors_from(apply_from, nodes@, j0));
                    }
                    j = k;
                }
            }
        } else {
            proof {
                assert(skip_node_spec(nodes@, index as int) == index + 1);
                assert(cx.errors@ =~= cx.errors@ + Seq::<ApplyError>::empty());
            }
            out = skip_node(nodes, index);
        }
        self.after_apply(cx, apply_from, index, nodes);
        proof {
            lemma_prefix_concat(old(cx).errors@, panel_errors(apply_from, index as int, nodes@));
        }
        out
    }

    fn type_id(&self) -> (t: LiveType) {
        PANEL_LIVE_TYPE
    }
}

impl LiveNew for Panel {
    /// A bare panel starts with both fields at zero.
    open spec fn new_spec() -> Panel {
        Panel { a: 0, b: 0 }
    }

    fn new(cx: &mut Cx) -> (r: Panel) {
        Panel { a: 0, b: 0 }
    }

    fn live_type() -> (t: LiveType) {
        PANEL_LIVE_TYPE
    }

    fn live_type_info() -> (r: LiveTypeInfo) {
        LiveTypeInfo { live_type: PANEL_LIVE_TYPE, module_id: WIDGETS_MODULE }
    }
}

} // verus!
