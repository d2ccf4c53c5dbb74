//! The node stream: the flat, tree-shaped encoding of a parsed live
//! document, and the index arithmetic for walking it.
//!
//! A document serialises a tree of objects depth-first.  Each node carries
//! an identifier and either a scalar value or a structural marker: an
//! object-open marker whose children follow until the matching close
//! marker.  Everything in the apply protocol is phrased over the function
//! [`skip_node_spec`], which gives the index just past the subtree that
//! starts at a given index.

use vstd::prelude::*;

verus! {

/// An interned identifier for a field or object name.
pub type LiveId = u64;

/// An interned identifier for a module path.
pub type LiveModuleId = u64;

/// Identifies one parsed document inside the registry.
pub type LiveFileId = usize;

/// The reserved identifier of the bookkeeping field that a synthetic
/// animation document carries; spelled out it reads `from`.
pub const ID_FROM: LiveId = 0x66726f6d;

/// The payload of one node: a scalar value or a structural marker.
#[derive(Clone, Copy, PartialEq, Eq, Structural, Debug)]
pub enum LiveValue {
    /// An integer scalar.
    Int(i64),
    /// A boolean scalar.
    Bool(bool),
    /// Opens a nested object; its children follow until the matching
    /// [`LiveValue::Close`].
    Open,
    /// Closes the innermost open object.
    Close,
}

/// One element of the node stream.
#[derive(Clone, Copy, PartialEq, Eq, Structural, Debug)]
pub struct LiveNode {
    /// The field or object name this node binds.
    pub id: LiveId,
    /// The scalar value or structural marker.
    pub value: LiveValue,
}

/// How a node changes the nesting depth of a depth-first walk.
pub open spec fn depth_delta(v: LiveValue) -> int {
    match v {
        LiveValue::Open => 1,
        LiveValue::Close => -1,
        _ => 0,
    }
}

/// Scans forward from `i` with `depth` objects currently open and returns
/// the index just past the point where the depth first returns to zero.
/// Out-of-range starts, and streams whose markers never balance, yield the
/// poison value `nodes.len() + 1`, one past any valid resumption point.
pub open spec fn skip_from(nodes: Seq<LiveNode>, i: int, depth: int) -> int
    decreases nodes.len() - i,
{
    if i < 0 || i >= nodes.len() {
        nodes.len() as int + 1
    } else {
        let d = depth + depth_delta(nodes[i].value);
        if d <= 0 {
            i + 1
        } else {
            skip_from(nodes, i + 1, d)
        }
    }
}

/// The index just past the subtree that starts at `i`: a scalar occupies
/// one slot, an open marker extends through its matching close.
pub open spec fn skip_node_spec(nodes: Seq<LiveNode>, i: int) -> int {
    skip_from(nodes, i, 0)
}

/// The subtree starting at `i` is a well-formed apply target: it starts in
/// range, does not start on a close marker, and its markers balance before
/// the stream ends.
pub open spec fn subtree_wf(nodes: Seq<LiveNode>, i: int) -> bool {
    &&& 0 <= i < nodes.len()
    &&& !(nodes[i].value is Close)
    &&& skip_node_spec(nodes, i) <= nodes.len()
}

/// A scan never stalls and never runs more than one slot past the end.
pub proof fn lemma_skip_from_bounds(nodes: Seq<LiveNode>, i: int, depth: int)
    ensures
        skip_from(nodes, i, depth) <= nodes.len() + 1,
        0 <= i < nodes.len() ==> i + 1 <= skip_from(nodes, i, depth),
        (i < 0 || i >= nodes.len()) ==> skip_from(nodes, i, depth) == nodes.len() + 1,
    decreases nodes.len() - i,
{
    if 0 <= i < nodes.len() {
        let d = depth + depth_delta(nodes[i].value);
        if d > 0 {
            lemma_skip_from_bounds(nodes, i + 1, d);
        }
    }
}

/// Scanning `a + b` levels out of a stream equals scanning `a` levels and
/// then `b` more from where that left off.
pub proof fn lemma_skip_from_compose(nodes: Seq<LiveNode>, j: int, a: int, b: int)
    requires
        a >= 1,
        b >= 1,
    ensures
        skip_from(nodes, j, a + b) == skip_from(nodes, skip_from(nodes, j, a), b),
    decreases nodes.len() - j,
{
    if j < 0 || j >= nodes.len() {
        // Both scans stall at the poison index, which is itself out of range.
    } else if nodes[j].value is Close {
        if a > 1 {
            lemma_skip_from_compose(nodes, j + 1, a - 1, b);
        }
    } else if nodes[j].value is Open {
        lemma_skip_from_compose(nodes, j + 1, a + 1, b);
    } else {
        lemma_skip_from_compose(nodes, j + 1, a, b);
    }
}

/// A well-formed subtree is consumed by a strictly advancing step that
/// stays inside the stream.
pub proof fn lemma_subtree_extent(nodes: Seq<LiveNode>, i: int)
    requires
        subtree_wf(nodes, i),
    ensures
        i < skip_node_spec(nodes, i) <= nodes.len(),
{
    lemma_skip_from_bounds(nodes, i, 0);
}

/// Inside an object's field region (one level deep), skipping one field
/// subtree resumes the same region scan: the field's own extent nests
/// within the enclosing object's extent.
pub proof fn lemma_field_step(nodes: Seq<LiveNode>, j: int)
    requires
        0 <= j < nodes.len(),
        !(nodes[j].value is Close),
    ensures
        skip_from(nodes, j, 1) == skip_from(nodes, skip_node_spec(nodes, j), 1),
        j + 1 <= skip_node_spec(nodes, j),
        skip_node_spec(nodes, j) <= skip_from(nodes, j, 1),
{
    lemma_skip_from_bounds(nodes, j, 0);
    if nodes[j].value is Open {
        lemma_skip_from_compose(nodes, j + 1, 1, 1);
        lemma_skip_from_bounds(nodes, j + 1, 1);
        lemma_skip_from_bounds(nodes, skip_from(nodes, j + 1, 1), 1);
    } else {
        lemma_skip_from_bounds(nodes, j + 1, 1);
    }
}

/// A field position inside a well-formed region is itself a well-formed
/// subtree.
pub proof fn lemma_field_wf(nodes: Seq<LiveNode>, j: int)
    requires
        0 <= j < nodes.len(),
        !(nodes[j].value is Close),
        skip_from(nodes, j, 1) <= nodes.len(),
    ensures
        subtree_wf(nodes, j),
        skip_node_spec(nodes, j) <= skip_from(nodes, j, 1),
        skip_from(nodes, skip_node_spec(nodes, j), 1) == skip_from(nodes, j, 1),
{
    lemma_field_step(nodes, j);
}

/// The region `[a, b)` is a back-to-back run of well-formed sibling
/// subtrees: each subtree's resumption index is the start of the next,
/// and the last one ends exactly at `b`.
pub open spec fn sibling_run(nodes: Seq<LiveNode>, a: int, b: int) -> bool
    decreases b - a,
{
    if a >= b {
        a == b
    } else if !subtree_wf(nodes, a) {
        false
    } else {
        let k = skip_node_spec(nodes, a);
        if k > b {
            false
        } else {
            proof {
                lemma_skip_from_bounds(nodes, a, 0);
            }
            sibling_run(nodes, k, b)
        }
    }
}

/// The start index of each sibling subtree in the run `[a, b)`, in stream
/// order.
pub open spec fn sibling_starts(nodes: Seq<LiveNode>, a: int, b: int) -> Seq<int>
    decreases b - a,
{
    if a >= b || !subtree_wf(nodes, a) {
        Seq::empty()
    } else {
        let k = skip_node_spec(nodes, a);
        if k > b {
            Seq::empty()
        } else {
            proof {
                lemma_skip_from_bounds(nodes, a, 0);
            }
            seq![a] + sibling_starts(nodes, k, b)
        }
    }
}

/// One resumption step through a sibling run: the first subtree is
/// well-formed, its resumption index advances strictly and stays within
/// the run, and what remains is again a sibling run.
pub proof fn lemma_sibling_run_step(nodes: Seq<LiveNode>, a: int, b: int)
    requires
        sibling_run(nodes, a, b),
        a < b,
    ensures
        subtree_wf(nodes, a),
        a < skip_node_spec(nodes, a) <= b,
        sibling_run(nodes, skip_node_spec(nodes, a), b),
        sibling_starts(nodes, a, b) == seq![a] + sibling_starts(nodes, skip_node_spec(nodes, a), b),
{
    lemma_subtree_extent(nodes, a);
}

/// Returns the index just past the subtree starting at `index`.
///
/// This is the structural consume that the apply protocol's unknown-field
/// policy relies on, and the resumption point it hands back.
pub fn skip_node(nodes: &Vec<LiveNode>, index: usize) -> (r: usize)
    requires
        subtree_wf(nodes@, index as int),
    ensures
        r == skip_node_spec(nodes@, index as int),
        index < r <= nodes@.len(),
{
    proof {
        lemma_subtree_extent(nodes@, index as int);
    }
    let ghost target = skip_node_spec(nodes@, index as int);
    let n = nodes.len();
    let mut j: usize = index;
    let mut depth: usize = 0;
    loop
        invariant
            n == nodes@.len(),
            index <= j <= n,
            depth <= j - index,
            skip_from(nodes@, j as int, depth as int) == target,
            target == skip_node_spec(nodes@, index as int),
            index < target <= nodes@.len(),
        decreases nodes@.len() - j,
    {
        proof {
            lemma_skip_from_bounds(nodes@, j as int, depth as int);
        }
        let node = nodes[j];
        match node.value {
            LiveValue::Open => {
                depth = depth + 1;
                j = j + 1;
            }
            LiveValue::Close => {
                if depth <= 1 {
                    proof {
                        assert(skip_from(nodes@, j as int, depth as int) == j + 1);
                    }
                    return j + 1;
                }
                depth = depth - 1;
                j = j + 1;
            }
            _ => {
                if depth == 0 {
                    proof {
                        assert(skip_from(nodes@, j as int, depth as int) == j + 1);
                    }
                    return j + 1;
                }
                j = j + 1;
            }
        }
    }
}

/// The first top-level field of the region starting at `j` whose
/// identifier is `name`, scanning one level deep until the enclosing close
/// marker.  Regions whose markers do not balance yield nothing.
pub open spec fn child_by_name_spec(nodes: Seq<LiveNode>, j: int, name: LiveId) -> Option<int>
    decreases nodes.len() - j,
{
    if j < 0 || j >= nodes.len() {
        Option::None
    } else if nodes[j].value is Close {
        Option::None
    } else if nodes[j].id == name {
        Option::Some(j)
    } else {
        let k = skip_node_spec(nodes, j);
        if k > nodes.len() {
            Option::None
        } else {
            proof {
                lemma_skip_from_bounds(nodes, j, 0);
            }
            child_by_name_spec(nodes, k, name)
        }
    }
}

/// Finds the direct child named `name` of the object whose open marker
/// stands at `parent_index`.
pub fn child_by_name(nodes: &Vec<LiveNode>, parent_index: usize, name: LiveId) -> (r: Option<
    usize,
>)
    requires
        subtree_wf(nodes@, parent_index as int),
        nodes@[parent_index as int].value is Open,
    ensures
        match r {
            Option::Some(k) => {
                &&& child_by_name_spec(nodes@, parent_index + 1, name) == Option::Some(k as int)
                &&& subtree_wf(nodes@, k as int)
                &&& nodes@[k as int].id == name
                &&& parent_index < k < nodes@.len()
            },
            Option::None => child_by_name_spec(nodes@, parent_index + 1, name) is None,
        },
{
    proof {
        lemma_subtree_extent(nodes@, parent_index as int);
    }
    let ghost e = skip_node_spec(nodes@, parent_index as int);
    let n = nodes.len();
    let mut j: usize = parent_index + 1;
    loop
        invariant
            n == nodes@.len(),
            parent_index < j <= n,
            skip_from(nodes@, j as int, 1) == e,
            e <= n,
            child_by_name_spec(nodes@, parent_index + 1, name) == child_by_name_spec(
                nodes@,
                j as int,
                name,
            ),
        decreases nodes@.len() - j,
    {
        proof {
            lemma_skip_from_bounds(nodes@, j as int, 1);
        }
        let node = nodes[j];
        match node.value {
            LiveValue::Close => {
                return None;
            }
            _ => {
                if node.id == name {
                    proof {
                        lemma_field_wf(nodes@, j as int);
                    }
                    return Some(j);
                }
                proof {
                    lemma_field_wf(nodes@, j as int);
                }
                let k = skip_node(nodes, j);
                j = k;
            }
        }
    }
}

/// A verified element-wise copy of a node stream, used where a document
/// must be read out of the registry while the context stays mutably
/// borrowed.
pub fn clone_nodes(nodes: &Vec<LiveNode>) -> (r: Vec<LiveNode>)
    ensures
        r@ == nodes@,
{
    let mut out: Vec<LiveNode> = Vec::new();
    let mut i: usize = 0;
    while i < nodes.len()
        invariant
            i <= nodes@.len(),
            out@ == nodes@.subrange(0, i as int),
        decreases nodes@.len() - i,
    {
        out.push(nodes[i]);
        i = i + 1;
    }
    proof {
        assert(out@ =~= nodes@);
    }
    out
}

} // verus!
