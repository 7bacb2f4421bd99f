use vstd::prelude::*;

verus! {

/// Position of a node inside the node sequence of a `WitValue`.
pub type NodeIndex = i32;

/// How deep a value's nesting may go: the encoder asks its callers to stay
/// under this bound, and the decoder stops at it with a structured error,
/// so that adversarially deep input cannot exhaust the stack.
pub const MAX_NESTING_DEPTH: usize = 4096;

/// One slot of the flattened wire form: either a scalar payload, or a
/// container that refers to other nodes of the same sequence by position.
///
/// The 32-bit and 64-bit float payloads are carried as their raw IEEE-754 bit
/// patterns, as in `Value`.
#[derive(Debug, PartialEq)]
pub enum WitNode {
    RecordValue(Vec<NodeIndex>),
    VariantValue(u32, Option<NodeIndex>),
    EnumValue(u32),
    FlagsValue(Vec<bool>),
    TupleValue(Vec<NodeIndex>),
    ListValue(Vec<NodeIndex>),
    OptionValue(Option<NodeIndex>),
    ResultValue(Result<Option<NodeIndex>, Option<NodeIndex>>),
    PrimU8(u8),
    PrimU16(u16),
    PrimU32(u32),
    PrimU64(u64),
    PrimS8(i8),
    PrimS16(i16),
    PrimS32(i32),
    PrimS64(i64),
    PrimFloat32(u32),
    PrimFloat64(u64),
    PrimChar(char),
    PrimBool(bool),
    PrimString(String),
}

/// Mathematical model of a `WitNode`: indices widened to `int`, `Vec`
/// replaced by `Seq` and `String` by `Seq<char>`.
pub enum WitNodeView {
    RecordValue(Seq<int>),
    VariantValue(u32, Option<int>),
    EnumValue(u32),
    FlagsValue(Seq<bool>),
    TupleValue(Seq<int>),
    ListValue(Seq<int>),
    OptionValue(Option<int>),
    ResultValue(Result<Option<int>, Option<int>>),
    PrimU8(u8),
    PrimU16(u16),
    PrimU32(u32),
    PrimU64(u64),
    PrimS8(i8),
    PrimS16(i16),
    PrimS32(i32),
    PrimS64(i64),
    PrimFloat32(u32),
    PrimFloat64(u64),
    PrimChar(char),
    PrimBool(bool),
    PrimString(Seq<char>),
}

/// The positions of `idxs`, widened to `int`.
pub open spec fn index_views(idxs: Seq<NodeIndex>) -> Seq<int> {
    Seq::new(idxs.len(), |i: int| idxs[i] as int)
}

impl View for WitNode {
    type V = WitNodeView;

    open spec fn view(&self) -> WitNodeView {
        match self {
            WitNode::RecordValue(idxs) => WitNodeView::RecordValue(index_views(idxs@)),
            WitNode::VariantValue(case_idx, inner) => WitNodeView::VariantValue(
                *case_idx,
                match inner {
                    Some(i) => Some(*i as int),
                    None => None,
                },
            ),
            WitNode::EnumValue(case_idx) => WitNodeView::EnumValue(*case_idx),
            WitNode::FlagsValue(flags) => WitNodeView::FlagsValue(flags@),
            WitNode::TupleValue(idxs) => WitNodeView::TupleValue(index_views(idxs@)),
            WitNode::ListValue(idxs) => WitNodeView::ListValue(index_views(idxs@)),
            WitNode::OptionValue(inner) => WitNodeView::OptionValue(
                match inner {
                    Some(i) => Some(*i as int),
                    None => None,
                },
            ),
            WitNode::ResultValue(res) => WitNodeView::ResultValue(
                match res {
                    Ok(Some(i)) => Ok(Some(*i as int)),
                    Ok(None) => Ok(None),
                    Err(Some(i)) => Err(Some(*i as int)),
                    Err(None) => Err(None),
                },
            ),
            WitNode::PrimU8(n) => WitNodeView::PrimU8(*n),
            WitNode::PrimU16(n) => WitNodeView::PrimU16(*n),
            WitNode::PrimU32(n) => WitNodeView::PrimU32(*n),
            WitNode::PrimU64(n) => WitNodeView::PrimU64(*n),
            WitNode::PrimS8(n) => WitNodeView::PrimS8(*n),
            WitNode::PrimS16(n) => WitNodeView::PrimS16(*n),
            WitNode::PrimS32(n) => WitNodeView::PrimS32(*n),
            WitNode::PrimS64(n) => WitNodeView::PrimS64(*n),
            WitNode::PrimFloat32(bits) => WitNodeView::PrimFloat32(*bits),
            WitNode::PrimFloat64(bits) => WitNodeView::PrimFloat64(*bits),
            WitNode::PrimChar(c) => WitNodeView::PrimChar(*c),
            WitNode::PrimBool(b) => WitNodeView::PrimBool(*b),
            WitNode::PrimString(s) => WitNodeView::PrimString(s@),
        }
    }
}

/// The models of a sequence of nodes, in order.
pub open spec fn node_views(nodes: Seq<WitNode>) -> Seq<WitNodeView> {
    Seq::new(nodes.len(), |i: int| nodes[i]@)
}

/// Appending a node appends its model.
pub proof fn lemma_node_views_push(nodes: Seq<WitNode>, n: WitNode)
    ensures
        node_views(nodes.push(n)) == node_views(nodes).push(n@),
{
    assert(node_views(nodes.push(n)) =~= node_views(nodes).push(n@));
}

/// Replacing a node replaces its model, and nothing else.
pub proof fn lemma_node_views_update(nodes: Seq<WitNode>, i: int, n: WitNode)
    requires
        0 <= i < nodes.len(),
    ensures
        node_views(nodes.update(i, n)) == node_views(nodes).update(i, n@),
{
    assert(node_views(nodes.update(i, n)) =~= node_views(nodes).update(i, n@));
}

/// Copies a boolean sequence.
pub(crate) fn copy_bools(flags: &Vec<bool>) -> (r: Vec<bool>)
    ensures
        r@ == flags@,
{
    let mut copied: Vec<bool> = Vec::new();
    let mut i: usize = 0;
    while i < flags.len()
        invariant
            0 <= i <= flags@.len(),
            copied@.len() == i,
            forall|j: int| 0 <= j < i ==> #[trigger] copied@[j] == flags@[j],
        decreases flags@.len() - i,
    {
        copied.push(flags[i]);
        i = i + 1;
    }
    proof {
        assert(copied@ =~= flags@);
    }
    copied
}

/// The flattened wire form of a value: an ordered, non-empty sequence of
/// nodes whose position 0 is the root. It is produced wholesale by the
/// encoder and never mutated afterwards.
#[derive(Debug, PartialEq)]
pub struct WitValue {
    pub nodes: Vec<WitNode>,
}

impl View for WitValue {
    type V = Seq<WitNodeView>;

    open spec fn view(&self) -> Seq<WitNodeView> {
        node_views(self.nodes@)
    }
}

/// The child positions that a node refers to, in the order the node gives
/// them.
pub open spec fn child_positions(n: WitNodeView) -> Seq<int> {
    match n {
        WitNodeView::RecordValue(idxs) => idxs,
        WitNodeView::TupleValue(idxs) => idxs,
        WitNodeView::ListValue(idxs) => idxs,
        WitNodeView::VariantValue(_, Some(i)) => seq![i],
        WitNodeView::OptionValue(Some(i)) => seq![i],
        WitNodeView::ResultValue(Ok(Some(i))) => seq![i],
        WitNodeView::ResultValue(Err(Some(i))) => seq![i],
        _ => Seq::empty(),
    }
}

/// Every child position of the node at `i` lies inside the sequence and
/// strictly after `i` itself: references only ever point forward.
pub open spec fn forward_refs_at(nodes: Seq<WitNodeView>, i: int) -> bool {
    forall|k: int|
        0 <= k < child_positions(nodes[i]).len() ==> i < #[trigger] child_positions(nodes[i])[k]
            < nodes.len()
}

/// A well-formed wire form: non-empty, and every reference points forward.
pub open spec fn well_formed(nodes: Seq<WitNodeView>) -> bool {
    &&& nodes.len() > 0
    &&& forall|i: int| 0 <= i < nodes.len() ==> #[trigger] forward_refs_at(nodes, i)
}

} // verus!
