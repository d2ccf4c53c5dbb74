//! The apply and construction protocols: how any object becomes
//! live-appliable.
//!
//! `apply` consumes exactly one subtree of a node stream, mutates the
//! receiver in place, and returns the index just past the subtree, which is
//! the resumption point for the next sibling.  The construction protocol
//! layers "build, then apply" entry points on top, including lookup through
//! the registry.  Each implementing type describes its own state transition
//! with the spec function `apply_spec`, and its executable `apply` is held
//! to it.

use vstd::prelude::*;

use crate::context::{
    cx_preserved, lemma_prefix_concat, lemma_prefix_refl, lemma_prefix_trans, module_file_spec,
    ptr_valid, registry_wf, ApplyError, Cx, LivePtr, LiveRegistry,
};
use crate::live_node::{
    child_by_name, child_by_name_spec, clone_nodes, lemma_sibling_run_step,
    lemma_skip_from_bounds, sibling_run, sibling_starts, skip_node,
    skip_node_spec, subtree_wf, LiveFileId, LiveId, LiveModuleId, LiveNode, LiveValue, ID_FROM,
};

verus! {

/// A process-wide stable identifier for a concrete appliable type, used to
/// tag factory registrations and to check downcasts.
pub type LiveType = u64;

/// Set in the identity tag of an optional wrapper.  Concrete types
/// register tags with this bit clear; the wrapper derives its own tag
/// from the inner type's by setting it.  A runtime tag therefore always
/// identifies the erased object's own type — a wrapper never identifies
/// itself as its inner type.
pub const OPTION_LIVE_TYPE_FLAG: LiveType = 0x8000_0000_0000_0000;

/// Carries a type's registration data: its identity tag and the module it
/// was declared in.
#[derive(Clone, Copy, PartialEq, Eq, Structural, Debug)]
pub struct LiveTypeInfo {
    /// The type's identity tag.
    pub live_type: LiveType,
    /// The module the type registers under.
    pub module_id: LiveModuleId,
}

/// Why an apply call is happening.  Exactly one variant is active per
/// call; only the two document-sourced variants carry a file.
#[derive(Clone, Copy, PartialEq, Eq, Structural, Debug)]
pub enum ApplyFrom {
    /// The object is being constructed fresh from a parsed document.
    NewFromDoc { file_id: LiveFileId },
    /// The document was edited and the object must re-apply.
    UpdateFromDoc { file_id: LiveFileId },
    /// Bare construction without any document.
    New,
    /// Driven by the animation bridge with a synthetic stream.
    Animate,
    /// A one-shot external overlay merged into a live object.
    ApplyOver,
    /// An overlay that also resets fields it does not mention.
    ApplyClear,
}

impl ApplyFrom {
    /// True exactly for the two document-sourced variants.
    pub fn is_from_doc(&self) -> (r: bool)
        ensures
            r == (*self is NewFromDoc || *self is UpdateFromDoc),
    {
        match self {
            ApplyFrom::NewFromDoc { .. } => true,
            ApplyFrom::UpdateFromDoc { .. } => true,
            _ => false,
        }
    }

    /// The source file, defined only for the document-sourced variants.
    pub fn file_id(&self) -> (r: Option<LiveFileId>)
        ensures
            match *self {
                ApplyFrom::NewFromDoc { file_id } => r == Option::Some(file_id),
                ApplyFrom::UpdateFromDoc { file_id } => r == Option::Some(file_id),
                _ => r is None,
            },
    {
        match self {
            ApplyFrom::NewFromDoc { file_id } => Some(*file_id),
            ApplyFrom::UpdateFromDoc { file_id } => Some(*file_id),
            _ => None,
        }
    }
}

/// The diagnostics that the default unknown-field policy emits for the
/// node at `index`: nothing when an animation apply meets the reserved
/// bookkeeping field, one unknown-field report otherwise.
pub open spec fn unknown_error_spec(
    apply_from: ApplyFrom,
    nodes: Seq<LiveNode>,
    index: int,
) -> Seq<ApplyError> {
    if apply_from is Animate && nodes[index].id == ID_FROM {
        Seq::empty()
    } else {
        seq![ApplyError { index: index as usize, id: nodes[index].id }]
    }
}

/// The default unknown-field policy: consume the subtree structurally and
/// report it, except that an animation apply skips the reserved `from`
/// bookkeeping field silently.
pub fn apply_value_unknown_default(
    cx: &mut Cx,
    apply_from: ApplyFrom,
    index: usize,
    nodes: &Vec<LiveNode>,
) -> (r: usize)
    requires
        subtree_wf(nodes@, index as int),
    ensures
        r == skip_node_spec(nodes@, index as int),
        final(cx).errors@ == old(cx).errors@ + unknown_error_spec(
            apply_from,
            nodes@,
            index as int,
        ),
        final(cx).registry == old(cx).registry,
{
    if let ApplyFrom::Animate = apply_from {
        if nodes[index].id == ID_FROM {
            proof {
                assert(old(cx).errors@ =~= old(cx).errors@ + Seq::<ApplyError>::empty());
            }
            return skip_node(nodes, index);
        }
    }
    cx.apply_error_no_matching_field(index, nodes);
    proof {
        assert(cx.errors@ =~= old(cx).errors@ + unknown_error_spec(
            apply_from,
            nodes@,
            index as int,
        ));
    }
    skip_node(nodes, index)
}

/// Folds a per-field state update over the top-level fields of an object
/// region, left to right, stopping at the enclosing close marker.  Regions
/// whose markers do not balance stop early; the apply protocol never
/// enters such a region.
pub open spec fn fold_fields<S>(
    s: S,
    step: spec_fn(S, Seq<LiveNode>, int) -> S,
    nodes: Seq<LiveNode>,
    j: int,
) -> S
    decreases nodes.len() - j,
{
    if j < 0 || j >= nodes.len() {
        s
    } else if nodes[j].value is Close {
        s
    } else {
        let k = skip_node_spec(nodes, j);
        if k > nodes.len() {
            s
        } else {
            proof {
                lemma_skip_from_bounds(nodes, j, 0);
            }
            fold_fields(step(s, nodes, j), step, nodes, k)
        }
    }
}

/// The diagnostics an object walk emits over the same region: one
/// unknown-field report per top-level field whose identifier the receiver
/// does not recognise, under the policy of [`unknown_error_spec`].
pub open spec fn fold_errors(
    known: spec_fn(LiveId) -> bool,
    apply_from: ApplyFrom,
    nodes: Seq<LiveNode>,
    j: int,
) -> Seq<ApplyError>
    decreases nodes.len() - j,
{
    if j < 0 || j >= nodes.len() {
        Seq::empty()
    } else if nodes[j].value is Close {
        Seq::empty()
    } else {
        let k = skip_node_spec(nodes, j);
        if k > nodes.len() {
            Seq::empty()
        } else {
            proof {
                lemma_skip_from_bounds(nodes, j, 0);
            }
            let here = if known(nodes[j].id) {
                Seq::<ApplyError>::empty()
            } else {
                unknown_error_spec(apply_from, nodes, j)
            };
            here + fold_errors(known, apply_from, nodes, k)
        }
    }
}

/// Lifecycle hooks: injection points fired around every apply, plus the
/// overridable unknown-field policy.  The defaults do nothing and apply
/// the skip-and-report policy.
pub trait LiveHook: Sized {
    /// Fired before the apply walk enters the subtree; does nothing
    /// unless a type overrides it.
    fn before_apply(
        &mut self,
        cx: &mut Cx,
        apply_from: ApplyFrom,
        index: usize,
        nodes: &Vec<LiveNode>,
    )
        default_ensures
            *final(self) == *old(self),
            *final(cx) == *old(cx),
    {
    }

    /// Fired after the apply walk consumed the subtree; does nothing
    /// unless a type overrides it.
    fn after_apply(
        &mut self,
        cx: &mut Cx,
        apply_from: ApplyFrom,
        index: usize,
        nodes: &Vec<LiveNode>,
    )
        default_ensures
            *final(self) == *old(self),
            *final(cx) == *old(cx),
    {
    }

    /// Fired once after bare construction; does nothing unless a type
    /// overrides it.
    fn after_new(&mut self, cx: &mut Cx)
        default_ensures
            *final(self) == *old(self),
            *final(cx) == *old(cx),
    {
    }

    /// Handles a field the receiving type does not recognise.  Whatever
    /// the policy, the subtree is consumed exactly and the context is only
    /// appended to; the default skips and reports as
    /// [`apply_value_unknown_default`] does.
    fn apply_value_unknown(
        &mut self,
        cx: &mut Cx,
        apply_from: ApplyFrom,
        index: usize,
        nodes: &Vec<LiveNode>,
    ) -> (r: usize)
        requires
            subtree_wf(nodes@, index as int),
        ensures
            r == skip_node_spec(nodes@, index as int),
            cx_preserved(*old(cx), *final(cx)),
    {
        let r = apply_value_unknown_default(cx, apply_from, index, nodes);
        proof {
            lemma_prefix_concat(
                old(cx).errors@,
                unknown_error_spec(apply_from, nodes@, index as int),
            );
        }
        r
    }

    /// Whether this object also offers the drawable/handleable component
    /// interface.  The default declines the capability.
    fn to_frame_component(&mut self) -> (r: bool)
        default_ensures
            !r,
            *final(self) == *old(self),
    {
        false
    }
}

/// The apply protocol.  `apply` consumes exactly the subtree starting at
/// `index` and leaves the receiver in the state that the implementing
/// type's own `apply_spec` describes.
pub trait LiveApply: LiveHook {
    /// The identity tag of the implementing type.
    spec fn type_id_spec() -> LiveType;

    /// The state this object reaches when the subtree at `index` is
    /// applied into it.  Implementers define it; `apply` is held to it.
    spec fn apply_spec(self, apply_from: ApplyFrom, index: int, nodes: Seq<LiveNode>) -> Self;

    /// The diagnostics one apply call on this object emits, in order.
    /// Implementers define it; `apply` is held to it, so the exact
    /// diagnostic record is visible through every wrapper.
    spec fn apply_errors_spec(
        self,
        apply_from: ApplyFrom,
        index: int,
        nodes: Seq<LiveNode>,
    ) -> Seq<ApplyError>;

    /// Law: an overlay that resets unmentioned fields is idempotent —
    /// applying the same `ApplyClear` stream twice in succession leaves
    /// the same state as applying it once.
    proof fn apply_clear_idempotent(self, index: int, nodes: Seq<LiveNode>)
        ensures
            self.apply_spec(ApplyFrom::ApplyClear, index, nodes).apply_spec(
                ApplyFrom::ApplyClear,
                index,
                nodes,
            ) == self.apply_spec(ApplyFrom::ApplyClear, index, nodes),
    ;

    /// Applies the subtree starting at `index` into this object and
    /// returns the index just past it: the caller's resumption point.
    fn apply(
        &mut self,
        cx: &mut Cx,
        apply_from: ApplyFrom,
        index: usize,
        nodes: &Vec<LiveNode>,
    ) -> (r: usize)
        requires
            subtree_wf(nodes@, index as int),
        ensures
            r == skip_node_spec(nodes@, index as int),
            index < r <= nodes@.len(),
            *final(self) == old(self).apply_spec(apply_from, index as int, nodes@),
            final(cx).errors@ == old(cx).errors@ + old(self).apply_errors_spec(
                apply_from,
                index as int,
                nodes@,
            ),
            cx_preserved(*old(cx), *final(cx)),
    ;

    /// Merges an overlay into an already-constructed object; fields the
    /// overlay does not mention are left untouched.
    fn apply_over(&mut self, cx: &mut Cx, nodes: &Vec<LiveNode>)
        requires
            subtree_wf(nodes@, 0),
        ensures
            *final(self) == old(self).apply_spec(ApplyFrom::ApplyOver, 0, nodes@),
            final(cx).errors@ == old(cx).errors@ + old(self).apply_errors_spec(
                ApplyFrom::ApplyOver,
                0,
                nodes@,
            ),
            cx_preserved(*old(cx), *final(cx)),
    {
        self.apply(cx, ApplyFrom::ApplyOver, 0, nodes);
    }

    /// Applies an overlay that resets fields it does not mention to their
    /// type defaults.
    fn apply_clear(&mut self, cx: &mut Cx, nodes: &Vec<LiveNode>)
        requires
            subtree_wf(nodes@, 0),
        ensures
            *final(self) == old(self).apply_spec(ApplyFrom::ApplyClear, 0, nodes@),
            final(cx).errors@ == old(cx).errors@ + old(self).apply_errors_spec(
                ApplyFrom::ApplyClear,
                0,
                nodes@,
            ),
            cx_preserved(*old(cx), *final(cx)),
    {
        self.apply(cx, ApplyFrom::ApplyClear, 0, nodes);
    }

    /// The identity tag of this object's concrete type.
    fn type_id(&self) -> (t: LiveType)
        ensures
            t == Self::type_id_spec(),
    ;
}

/// The construction protocol: every entry point builds a fresh object and
/// leaves it exactly as a direct apply of the same stream would.
pub trait LiveNew: LiveApply {
    /// The state a bare construction produces.
    spec fn new_spec() -> Self;

    /// Bare construction; no document is involved and nothing is
    /// reported.
    fn new(cx: &mut Cx) -> (r: Self)
        ensures
            r == Self::new_spec(),
            final(cx).errors@ == old(cx).errors@,
            final(cx).registry == old(cx).registry,
    ;

    /// The identity tag of the constructed type.
    fn live_type() -> (t: LiveType)
        ensures
            t == Self::type_id_spec(),
    ;

    /// The registration data of the constructed type.
    fn live_type_info() -> (r: LiveTypeInfo)
        ensures
            r.live_type == Self::type_id_spec(),
    ;

    /// Registers this type's document code with the context; nothing to do
    /// by default.
    fn live_register(_cx: &mut Cx) {
    }

    /// Constructs and applies the subtree at `index` in one step.
    fn new_apply(cx: &mut Cx, apply_from: ApplyFrom, index: usize, nodes: &Vec<LiveNode>) -> (r:
        Self)
        requires
            subtree_wf(nodes@, index as int),
        ensures
            r == Self::new_spec().apply_spec(apply_from, index as int, nodes@),
            final(cx).errors@ == old(cx).errors@ + Self::new_spec().apply_errors_spec(
                apply_from,
                index as int,
                nodes@,
            ),
            cx_preserved(*old(cx), *final(cx)),
    {
        let mut ret = Self::new(cx);
        ret.apply(cx, apply_from, index, nodes);
        proof {
            lemma_prefix_concat(
                old(cx).errors@,
                Self::new_spec().apply_errors_spec(apply_from, index as int, nodes@),
            );
        }
        ret
    }

    /// Constructs and applies, advancing the caller's stream cursor in
    /// place to the resumption point — used when building one object
    /// inline within a larger walk.
    fn new_apply_mut(
        cx: &mut Cx,
        apply_from: ApplyFrom,
        index: &mut usize,
        nodes: &Vec<LiveNode>,
    ) -> (r: Self)
        requires
            subtree_wf(nodes@, *old(index) as int),
        ensures
            r == Self::new_spec().apply_spec(apply_from, *old(index) as int, nodes@),
            *final(index) == skip_node_spec(nodes@, *old(index) as int),
            final(cx).errors@ == old(cx).errors@ + Self::new_spec().apply_errors_spec(
                apply_from,
                *old(index) as int,
                nodes@,
            ),
            cx_preserved(*old(cx), *final(cx)),
    {
        let mut ret = Self::new(cx);
        *index = ret.apply(cx, apply_from, *index, nodes);
        proof {
            lemma_prefix_concat(
                old(cx).errors@,
                Self::new_spec().apply_errors_spec(apply_from, *old(index) as int, nodes@),
            );
        }
        ret
    }

    /// Resolves a registry pointer to its document and constructs from the
    /// subtree it points at, applying as a fresh document construction.
    fn new_from_ptr(cx: &mut Cx, live_ptr: LivePtr) -> (r: Self)
        requires
            ptr_valid(old(cx).registry, live_ptr),
        ensures
            r == Self::new_spec().apply_spec(
                ApplyFrom::NewFromDoc { file_id: live_ptr.file_id },
                live_ptr.index as int,
                old(cx).registry.files@[live_ptr.file_id as int].nodes@,
            ),
            final(cx).errors@ == old(cx).errors@ + Self::new_spec().apply_errors_spec(
                ApplyFrom::NewFromDoc { file_id: live_ptr.file_id },
                live_ptr.index as int,
                old(cx).registry.files@[live_ptr.file_id as int].nodes@,
            ),
            cx_preserved(*old(cx), *final(cx)),
    {
        let doc_nodes = clone_nodes(&cx.registry.files[live_ptr.file_id].nodes);
        let mut ret = Self::new(cx);
        ret.apply(
            cx,
            ApplyFrom::NewFromDoc { file_id: live_ptr.file_id },
            live_ptr.index,
            &doc_nodes,
        );
        proof {
            lemma_prefix_concat(
                old(cx).errors@,
                Self::new_spec().apply_errors_spec(
                    ApplyFrom::NewFromDoc { file_id: live_ptr.file_id },
                    live_ptr.index as int,
                    doc_nodes@,
                ),
            );
        }
        ret
    }

    /// Looks a module up by path, finds the top-level child named `id`
    /// within its document, and constructs from it.  An absent module or
    /// child is a recoverable lookup miss, not an error.
    fn new_from_module_path_id(cx: &mut Cx, module_id: LiveModuleId, id: LiveId) -> (r: Option<
        Self,
    >)
        requires
            registry_wf(old(cx).registry),
        ensures
            match module_child_spec(old(cx).registry, module_id, id) {
                Option::Some(fk) => r matches Option::Some(v) && v
                    == Self::new_spec().apply_spec(
                    ApplyFrom::NewFromDoc { file_id: fk.0 as usize },
                    fk.1,
                    old(cx).registry.files@[fk.0].nodes@,
                ) && final(cx).errors@ == old(cx).errors@ + Self::new_spec().apply_errors_spec(
                    ApplyFrom::NewFromDoc { file_id: fk.0 as usize },
                    fk.1,
                    old(cx).registry.files@[fk.0].nodes@,
                ),
                // A lookup miss is recoverable, not an error: nothing is
                // reported.
                Option::None => r is None && final(cx).errors@ == old(cx).errors@,
            },
            cx_preserved(*old(cx), *final(cx)),
    {
        let file_id_opt = cx.registry.module_id_to_file_id(module_id);
        match file_id_opt {
            Some(file_id) => {
                let doc_nodes = clone_nodes(&cx.registry.files[file_id].nodes);
                match child_by_name(&doc_nodes, 0, id) {
                    Some(index) => {
                        let mut ret = Self::new(cx);
                        ret.apply(
                            cx,
                            ApplyFrom::NewFromDoc { file_id },
                            index,
                            &doc_nodes,
                        );
                        proof {
                            lemma_prefix_concat(
                                old(cx).errors@,
                                Self::new_spec().apply_errors_spec(
                                    ApplyFrom::NewFromDoc { file_id },
                                    index as int,
                                    doc_nodes@,
                                ),
                            );
                        }
                        Some(ret)
                    }
                    None => {
                        proof {
                            lemma_prefix_refl(cx.errors@);
                        }
                        None
                    }
                }
            }
            None => {
                proof {
                    lemma_prefix_refl(cx.errors@);
                }
                None
            }
        }
    }
}

/// The diagnostics a run of sibling constructions emits: each sibling's
/// own apply diagnostics, concatenated in stream order.
pub open spec fn sibling_errors<T: LiveNew>(
    apply_from: ApplyFrom,
    nodes: Seq<LiveNode>,
    a: int,
    b: int,
) -> Seq<ApplyError>
    decreases b - a,
{
    if a >= b || !subtree_wf(nodes, a) {
        Seq::empty()
    } else {
        let k = skip_node_spec(nodes, a);
        if k > b {
            Seq::empty()
        } else {
            proof {
                lemma_skip_from_bounds(nodes, a, 0);
            }
            T::new_spec().apply_errors_spec(apply_from, a, nodes) + sibling_errors::<T>(
                apply_from,
                nodes,
                k,
                b,
            )
        }
    }
}

/// Monotonic resumption over a run of sibling subtrees: applying
/// repeatedly, each time from the index the previous apply returned,
/// constructs exactly one object per sibling, in stream order, and
/// consumes the run completely.
pub fn new_apply_siblings<T: LiveNew>(
    cx: &mut Cx,
    apply_from: ApplyFrom,
    start: usize,
    end: usize,
    nodes: &Vec<LiveNode>,
) -> (r: Vec<T>)
    requires
        sibling_run(nodes@, start as int, end as int),
        end <= nodes@.len(),
    ensures
        r@.len() == sibling_starts(nodes@, start as int, end as int).len(),
        forall|q: int|
            0 <= q < r@.len() ==> r@[q] == T::new_spec().apply_spec(
                apply_from,
                #[trigger] sibling_starts(nodes@, start as int, end as int)[q],
                nodes@,
            ),
        final(cx).errors@ == old(cx).errors@ + sibling_errors::<T>(
            apply_from,
            nodes@,
            start as int,
            end as int,
        ),
        cx_preserved(*old(cx), *final(cx)),
{
    let ghost starts_all = sibling_starts(nodes@, start as int, end as int);
    let mut out: Vec<T> = Vec::new();
    let mut i: usize = start;
    proof {
        lemma_prefix_refl(cx.errors@);
        assert(starts_all.skip(0) =~= starts_all);
    }
    while i < end
        invariant
            start <= i <= end,
            end <= nodes@.len(),
            sibling_run(nodes@, i as int, end as int),
            starts_all == sibling_starts(nodes@, start as int, end as int),
            out@.len() <= starts_all.len(),
            starts_all.skip(out@.len() as int) == sibling_starts(nodes@, i as int, end as int),
            forall|q: int|
                0 <= q < out@.len() ==> out@[q] == T::new_spec().apply_spec(
                    apply_from,
                    #[trigger] starts_all[q],
                    nodes@,
                ),
            cx.errors@ + sibling_errors::<T>(apply_from, nodes@, i as int, end as int) == old(
                cx,
            ).errors@ + sibling_errors::<T>(apply_from, nodes@, start as int, end as int),
            cx_preserved(*old(cx), *cx),
        decreases end - i,
    {
        let ghost i0 = i as int;
        let ghost done = out@.len() as int;
        proof {
            lemma_sibling_run_step(nodes@, i0, end as int);
        }
        let ghost cx_mid = *cx;
        let item = T::new_apply_mut(cx, apply_from, &mut i, nodes);
        proof {
            lemma_prefix_trans(old(cx).errors@, cx_mid.errors@, cx.errors@);
            // This subtree's diagnostics peel off the front of the run's
            // remaining diagnostics.
            let here = T::new_spec().apply_errors_spec(apply_from, i0, nodes@);
            let rest_errs = sibling_errors::<T>(apply_from, nodes@, i as int, end as int);
            assert(sibling_errors::<T>(apply_from, nodes@, i0, end as int) == here + rest_errs);
            assert((cx_mid.errors@ + here) + rest_errs =~= cx_mid.errors@ + (here + rest_errs));
            // The run's remaining starts decompose as this subtree followed
            // by the rest.
            let rest = sibling_starts(nodes@, i as int, end as int);
            assert(starts_all.skip(done) == seq![i0] + rest);
            assert(starts_all.skip(done).len() == starts_all.len() - done);
            assert(done < starts_all.len());
            assert(starts_all[done] == starts_all.skip(done)[0]);
            assert(starts_all[done] == i0);
            assert(starts_all.skip(done + 1) =~= rest) by {
                assert forall|q: int| 0 <= q < rest.len() implies starts_all.skip(done + 1)[q]
                    == rest[q] by {
                    assert(starts_all.skip(done + 1)[q] == starts_all[done + 1 + q]);
                    assert(starts_all.skip(done)[1 + q] == starts_all[done + 1 + q]);
                    assert((seq![i0] + rest)[1 + q] == rest[q]);
                }
            }
        }
        out.push(item);
    }
    proof {
        assert(sibling_starts(nodes@, i as int, end as int) =~= Seq::<int>::empty());
        assert(starts_all.skip(out@.len() as int).len() == 0);
        assert(cx.errors@ + sibling_errors::<T>(apply_from, nodes@, i as int, end as int)
            =~= cx.errors@);
    }
    out
}

/// Where construction by module path lands: the resolved file and the
/// index of the named top-level child inside its document.
pub open spec fn module_child_spec(
    reg: LiveRegistry,
    module_id: LiveModuleId,
    id: LiveId,
) -> Option<(int, int)> {
    match module_file_spec(reg, module_id) {
        Option::Some(f) => match child_by_name_spec(reg.files@[f].nodes@, 1, id) {
            Option::Some(k) => Option::Some((f, k)),
            Option::None => Option::None,
        },
        Option::None => Option::None,
    }
}

/// Per-field application for field value types: consumes the subtree at
/// `index` into one field.
pub trait LiveApplyValue: Sized {
    /// The value this field reaches from the subtree at `index`.
    spec fn apply_value_spec(self, index: int, nodes: Seq<LiveNode>) -> Self;

    /// Applies the subtree at `index` into this field and returns the
    /// resumption index.
    fn apply_value(
        &mut self,
        cx: &mut Cx,
        apply_from: ApplyFrom,
        index: usize,
        nodes: &Vec<LiveNode>,
    ) -> (r: usize)
        requires
            subtree_wf(nodes@, index as int),
        ensures
            r == skip_node_spec(nodes@, index as int),
            *final(self) == old(self).apply_value_spec(index as int, nodes@),
            *final(cx) == *old(cx),
    ;
}

impl LiveApplyValue for i64 {
    /// An integer field takes an integer scalar and ignores any other
    /// value shape.
    open spec fn apply_value_spec(self, index: int, nodes: Seq<LiveNode>) -> i64 {
        match nodes[index].value {
            LiveValue::Int(x) => x,
            _ => self,
        }
    }

    fn apply_value(
        &mut self,
        cx: &mut Cx,
        apply_from: ApplyFrom,
        index: usize,
        nodes: &Vec<LiveNode>,
    ) -> (r: usize) {
        if let LiveValue::Int(x) = nodes[index].value {
            *self = x;
        }
        skip_node(nodes, index)
    }
}

impl LiveApplyValue for bool {
    /// A boolean field takes a boolean scalar and ignores any other value
    /// shape.
    open spec fn apply_value_spec(self, index: int, nodes: Seq<LiveNode>) -> bool {
        match nodes[index].value {
            LiveValue::Bool(x) => x,
            _ => self,
        }
    }

    fn apply_value(
        &mut self,
        cx: &mut Cx,
        apply_from: ApplyFrom,
        index: usize,
        nodes: &Vec<LiveNode>,
    ) -> (r: usize) {
        if let LiveValue::Bool(x) = nodes[index].value {
            *self = x;
        }
        skip_node(nodes, index)
    }
}

/// Conversion of a plain value into a node payload, used when synthesising
/// overlay streams.
pub trait ToLiveValue {
    /// The node payload this value serialises to.
    fn to_live_value(&self) -> (v: LiveValue);
}

impl ToLiveValue for i64 {
    fn to_live_value(&self) -> (v: LiveValue)
        ensures
            v == LiveValue::Int(*self),
    {
        LiveValue::Int(*self)
    }
}

impl ToLiveValue for bool {
    fn to_live_value(&self) -> (v: LiveValue)
        ensures
            v == LiveValue::Bool(*self),
    {
        LiveValue::Bool(*self)
    }
}

/// A block of live document source registered by a module, together with
/// the types it declares.
pub struct LiveBody {
    /// The file the block was written in.
    pub file: String,
    /// The module path it registers under.
    pub module: String,
    /// Source line of the block.
    pub line: usize,
    /// Source column of the block.
    pub column: usize,
    /// The document source text.
    pub code: String,
    /// Registration data of the types the block declares.
    pub live_type_infos: Vec<LiveTypeInfo>,
}

impl<T: LiveNew> LiveHook for Option<T> {
    /// The wrapper adds no behaviour of its own around an apply.
    fn before_apply(
        &mut self,
        cx: &mut Cx,
        apply_from: ApplyFrom,
        index: usize,
        nodes: &Vec<LiveNode>,
    )
        ensures
            *final(self) == *old(self),
            *final(cx) == *old(cx),
    {
    }

    /// The wrapper adds no behaviour of its own around an apply.
    fn after_apply(
        &mut self,
        cx: &mut Cx,
        apply_from: ApplyFrom,
        index: usize,
        nodes: &Vec<LiveNode>,
    )
        ensures
            *final(self) == *old(self),
            *final(cx) == *old(cx),
    {
    }

    /// The wrapper adds no behaviour of its own after construction.
    fn after_new(&mut self, cx: &mut Cx)
        ensures
            *final(self) == *old(self),
            *final(cx) == *old(cx),
    {
    }

    /// An optional wrapper declines the drawable/handleable capability.
    fn to_frame_component(&mut self) -> (r: bool)
        ensures
            !r,
    {
        false
    }
}

impl<T: LiveNew> LiveApply for Option<T> {
    /// An optional wrapper is a type of its own: its tag is the inner
    /// type's tag marked with [`OPTION_LIVE_TYPE_FLAG`], never the inner
    /// tag itself.
    open spec fn type_id_spec() -> LiveType {
        T::type_id_spec() | OPTION_LIVE_TYPE_FLAG
    }

    /// Applying into an absent value first materialises the inner default
    /// and then applies into it; applying into a present value delegates.
    open spec fn apply_spec(self, apply_from: ApplyFrom, index: int, nodes: Seq<LiveNode>) -> Option<
        T,
    > {
        match self {
            Option::Some(v) => Option::Some(v.apply_spec(apply_from, index, nodes)),
            Option::None => Option::Some(T::new_spec().apply_spec(apply_from, index, nodes)),
        }
    }

    /// The wrapper reports exactly what the inner apply reports: the
    /// present value's diagnostics, or — when materialising — those of a
    /// freshly constructed inner value.
    open spec fn apply_errors_spec(
        self,
        apply_from: ApplyFrom,
        index: int,
        nodes: Seq<LiveNode>,
    ) -> Seq<ApplyError> {
        match self {
            Option::Some(v) => v.apply_errors_spec(apply_from, index, nodes),
            Option::None => T::new_spec().apply_errors_spec(apply_from, index, nodes),
        }
    }

    proof fn apply_clear_idempotent(self, index: int, nodes: Seq<LiveNode>) {
        match self {
            Option::Some(v) => {
                v.apply_clear_idempotent(index, nodes);
            }
            Option::None => {
                T::new_spec().apply_clear_idempotent(index, nodes);
            }
        }
    }

    fn apply(
        &mut self,
        cx: &mut Cx,
        apply_from: ApplyFrom,
        index: usize,
        nodes: &Vec<LiveNode>,
    ) -> (r: usize) {
        match self {
            Some(v) => v.apply(cx, apply_from, index, nodes),
            None => {
                let mut inner = T::new(cx);
                let r = inner.apply(cx, apply_from, index, nodes);
                proof {
                    lemma_prefix_concat(
                        old(cx).errors@,
                        T::new_spec().apply_errors_spec(apply_from, index as int, nodes@),
                    );
                }
                *self = Some(inner);
                r
            }
        }
    }

    fn type_id(&self) -> (t: LiveType) {
        T::live_type() | OPTION_LIVE_TYPE_FLAG
    }
}

impl<T: LiveNew> LiveNew for Option<T> {
    /// An optional child starts absent and materialises on first document
    /// contact.
    open spec fn new_spec() -> Option<T> {
        Option::None
    }

    fn new(cx: &mut Cx) -> (r: Option<T>) {
        None
    }

    fn live_type() -> (t: LiveType) {
        T::live_type() | OPTION_LIVE_TYPE_FLAG
    }

    fn live_type_info() -> (r: LiveTypeInfo) {
        let inner = T::live_type_info();
        LiveTypeInfo {
            live_type: T::live_type() | OPTION_LIVE_TYPE_FLAG,
            module_id: inner.module_id,
        }
    }
}

/// Law: materialisation through an optional wrapper is observably the same
/// as constructing the inner type directly and applying the same subtree.
pub proof fn lemma_option_materializes<T: LiveNew>(
    apply_from: ApplyFrom,
    index: int,
    nodes: Seq<LiveNode>,
)
    ensures
        Option::<T>::None.apply_spec(apply_from, index, nodes) == Option::Some(
            T::new_spec().apply_spec(apply_from, index, nodes),
        ),
{
}

} // verus!
