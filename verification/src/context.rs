//! The shared context that every apply call threads through: the registry
//! of parsed documents and the diagnostic sink for unmatched fields.
//!
//! The parser and file handling live outside this crate; the registry here
//! models their interface boundary as plain data, so that the protocol's
//! behaviour against it can be stated and proved exactly.

use vstd::prelude::*;

use crate::live_node::{
    subtree_wf, LiveFileId, LiveId, LiveModuleId, LiveNode,
};

verus! {

/// A diagnostic recorded when a document names a field the receiving
/// object does not recognise.  Never fatal: the subtree is skipped and the
/// walk continues.
#[derive(Clone, Copy, PartialEq, Eq, Structural, Debug)]
pub struct ApplyError {
    /// Index of the unmatched node in the stream it came from.
    pub index: usize,
    /// The identifier that had no matching field.
    pub id: LiveId,
}

/// One parsed document: the module it defines and its node stream.
pub struct LiveDocument {
    /// The module path this document was registered under.
    pub module_id: LiveModuleId,
    /// The document body, serialised depth-first.
    pub nodes: Vec<LiveNode>,
}

/// The registry of parsed documents, indexed by [`LiveFileId`].
pub struct LiveRegistry {
    /// All registered documents; a file identifier is an index here.
    pub files: Vec<LiveDocument>,
}

/// A pointer into the registry: a document and a node index within it.
#[derive(Clone, Copy, PartialEq, Eq, Structural, Debug)]
pub struct LivePtr {
    /// Which document the pointer resolves in.
    pub file_id: LiveFileId,
    /// The index of the pointed-at subtree inside that document.
    pub index: usize,
}

/// The shared rendering/event context, reduced to the two collaborator
/// surfaces the apply protocol touches: document lookup and error
/// reporting.
pub struct Cx {
    /// The registry of parsed documents.
    pub registry: LiveRegistry,
    /// Diagnostics recorded so far, in the order they were reported.
    pub errors: Vec<ApplyError>,
}

/// A document that construction may enter: non-empty, rooted at an object
/// open marker whose subtree balances within the stream.
pub open spec fn doc_wf(doc: LiveDocument) -> bool {
    &&& doc.nodes@.len() > 0
    &&& doc.nodes@[0].value is Open
    &&& subtree_wf(doc.nodes@, 0)
}

/// Every registered document is enterable.
pub open spec fn registry_wf(reg: LiveRegistry) -> bool {
    forall|f: int| 0 <= f < reg.files@.len() ==> doc_wf(#[trigger] reg.files@[f])
}

/// The pointer resolves to a well-formed subtree of a registered document.
pub open spec fn ptr_valid(reg: LiveRegistry, ptr: LivePtr) -> bool {
    &&& ptr.file_id < reg.files@.len()
    &&& subtree_wf(reg.files@[ptr.file_id as int].nodes@, ptr.index as int)
}

/// The first registered file that defines `module_id`, scanning from `j`.
pub open spec fn module_file_from(files: Seq<LiveDocument>, module_id: LiveModuleId, j: int) -> Option<int>
    decreases files.len() - j,
{
    if j < 0 || j >= files.len() {
        Option::None
    } else if files[j].module_id == module_id {
        Option::Some(j)
    } else {
        module_file_from(files, module_id, j + 1)
    }
}

/// The file that a module path resolves to, if any.
pub open spec fn module_file_spec(reg: LiveRegistry, module_id: LiveModuleId) -> Option<int> {
    module_file_from(reg.files@, module_id, 0)
}

/// How one apply call may change the context: the registry is read-only,
/// and diagnostics are only ever appended.
pub open spec fn cx_preserved(pre: Cx, post: Cx) -> bool {
    &&& post.registry == pre.registry
    &&& pre.errors@.is_prefix_of(post.errors@)
}

/// Appending diagnostics preserves the ones already recorded.
pub proof fn lemma_prefix_concat(a: Seq<ApplyError>, b: Seq<ApplyError>)
    ensures
        a.is_prefix_of(a + b),
{
    assert(a =~= (a + b).subrange(0, a.len() as int));
}

/// A context is preserved across a call that leaves it untouched.
pub proof fn lemma_prefix_refl(a: Seq<ApplyError>)
    ensures
        a.is_prefix_of(a),
{
    assert(a =~= a.subrange(0, a.len() as int));
}

/// Preservation composes across nested apply calls.
pub proof fn lemma_prefix_trans(a: Seq<ApplyError>, b: Seq<ApplyError>, c: Seq<ApplyError>)
    requires
        a.is_prefix_of(b),
        b.is_prefix_of(c),
    ensures
        a.is_prefix_of(c),
{
    assert(a =~= c.subrange(0, a.len() as int)) by {
        assert(forall|i: int| 0 <= i < a.len() ==> a[i] == #[trigger] b[i]);
        assert(forall|i: int| 0 <= i < b.len() ==> b[i] == #[trigger] c[i]);
    }
}

impl LiveRegistry {
    /// A registry with no documents.
    pub fn new() -> (r: LiveRegistry)
        ensures
            r.files@.len() == 0,
    {
        LiveRegistry { files: Vec::new() }
    }

    /// Resolves a module path to the file it was registered under, if any.
    pub fn module_id_to_file_id(&self, module_id: LiveModuleId) -> (r: Option<LiveFileId>)
        ensures
            match r {
                Option::Some(f) => module_file_spec(*self, module_id) == Option::Some(f as int)
                    && f < self.files@.len(),
                Option::None => module_file_spec(*self, module_id) is None,
            },
    {
        let n = self.files.len();
        let mut j: usize = 0;
        while j < n
            invariant
                n == self.files@.len(),
                j <= n,
                module_file_from(self.files@, module_id, 0) == module_file_from(
                    self.files@,
                    module_id,
                    j as int,
                ),
            decreases n - j,
        {
            if self.files[j].module_id == module_id {
                return Some(j);
            }
            j = j + 1;
        }
        None
    }
}

impl Cx {
    /// A fresh context with an empty registry and no diagnostics.
    pub fn new() -> (cx: Cx)
        ensures
            cx.registry.files@.len() == 0,
            cx.errors@.len() == 0,
    {
        Cx { registry: LiveRegistry::new(), errors: Vec::new() }
    }

    /// Records the unknown-field diagnostic for the node at `index`.
    pub fn apply_error_no_matching_field(&mut self, index: usize, nodes: &Vec<LiveNode>)
        requires
            index < nodes@.len(),
        ensures
            final(self).errors@ == old(self).errors@.push(
                ApplyError { index, id: nodes@[index as int].id },
            ),
            final(self).registry == old(self).registry,
    {
        let err = ApplyError { index, id: nodes[index].id };
        self.errors.push(err);
    }
}

} // verus!
