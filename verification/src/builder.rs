use vstd::prelude::*;

use crate::node::index_views;
use crate::node::lemma_node_views_push;
use crate::node::lemma_node_views_update;
use crate::node::node_views;
use crate::node::NodeIndex;
use crate::node::WitNode;
use crate::node::WitNodeView;
use crate::node::WitValue;

verus! {

/// A reserved single-child container, completed with its child's position.
pub open spec fn with_child_view(n: WitNodeView, child: int) -> WitNodeView {
    match n {
        WitNodeView::VariantValue(case_idx, None) => WitNodeView::VariantValue(
            case_idx,
            Some(child),
        ),
        WitNodeView::OptionValue(None) => WitNodeView::OptionValue(Some(child)),
        WitNodeView::ResultValue(Ok(None)) => WitNodeView::ResultValue(Ok(Some(child))),
        WitNodeView::ResultValue(Err(None)) => WitNodeView::ResultValue(Err(Some(child))),
        _ => n,
    }
}

/// Whether the node at a reserved slot can take a single deferred child.
pub open spec fn takes_child(n: WitNodeView) -> bool {
    match n {
        WitNodeView::VariantValue(_, None) => true,
        WitNodeView::OptionValue(None) => true,
        WitNodeView::ResultValue(Ok(None)) => true,
        WitNodeView::ResultValue(Err(None)) => true,
        _ => false,
    }
}

/// A reserved sequence container, completed with the positions of its
/// children.
pub open spec fn with_children_view(n: WitNodeView, children: Seq<int>) -> WitNodeView {
    match n {
        WitNodeView::ListValue(_) => WitNodeView::ListValue(children),
        WitNodeView::TupleValue(_) => WitNodeView::TupleValue(children),
        WitNodeView::RecordValue(_) => WitNodeView::RecordValue(children),
        _ => n,
    }
}

/// Whether the node at a reserved slot can take a deferred child sequence.
pub open spec fn takes_children(n: WitNodeView) -> bool {
    match n {
        WitNodeView::ListValue(_) => true,
        WitNodeView::TupleValue(_) => true,
        WitNodeView::RecordValue(_) => true,
        _ => false,
    }
}

/// Arena-style construction surface for a `WitValue`.
///
/// Nodes are only ever appended, so a parent's slot is allocated before its
/// children exist; a container is appended in a reserved state (its child
/// positions still empty) and completed exactly once by `finish_child` or
/// `finish_seq` after its children have been appended at later positions.
/// The contracts below pin the node sequence after every operation, so a
/// verified caller cannot leave a reservation unfinished, finish a slot
/// twice, or finish a slot of the wrong kind without its own contract
/// becoming unprovable.
pub struct WitValueBuilder {
    pub nodes: Vec<WitNode>,
    /// The positions of reserved containers whose deferred children are not
    /// yet installed. Only `new` makes a builder, every reservation adds its
    /// position, finishing removes it, and `build` demands it empty: a
    /// reservation can neither be finished twice nor left unfinished, and a
    /// fully-formed node can never be finished at all.
    pub reserved: Ghost<Set<int>>,
}

impl WitValueBuilder {
    /// An empty builder: no nodes yet.
    pub fn new() -> (b: WitValueBuilder)
        ensures
            b.nodes@ == Seq::<WitNode>::empty(),
            b.reserved@ == Set::<int>::empty(),
    {
        WitValueBuilder { nodes: Vec::new(), reserved: Ghost(Set::empty()) }
    }

    /// Appends `node` and returns its position.
    fn push_node(&mut self, node: WitNode) -> (idx: NodeIndex)
        requires
            old(self).nodes@.len() < 0x7fff_ffff,
        ensures
            final(self).nodes@ == old(self).nodes@.push(node),
            final(self).reserved@ == old(self).reserved@,
            idx == old(self).nodes@.len(),
    {
        let idx = self.nodes.len() as NodeIndex;
        self.nodes.push(node);
        idx
    }

    /// Appends a boolean scalar node; returns its position.
    pub fn add_bool(&mut self, value: bool) -> (idx: NodeIndex)
        requires
            old(self).nodes@.len() < 0x7fff_ffff,
        ensures
            final(self).nodes@ == old(self).nodes@.push(WitNode::PrimBool(value)),
            final(self).reserved@ == old(self).reserved@,
            idx == old(self).nodes@.len(),
    {
        self.push_node(WitNode::PrimBool(value))
    }

    /// Appends an unsigned 8-bit scalar node; returns its position.
    pub fn add_u8(&mut self, value: u8) -> (idx: NodeIndex)
        requires
            old(self).nodes@.len() < 0x7fff_ffff,
        ensures
            final(self).nodes@ == old(self).nodes@.push(WitNode::PrimU8(value)),
            final(self).reserved@ == old(self).reserved@,
            idx == old(self).nodes@.len(),
    {
        self.push_node(WitNode::PrimU8(value))
    }

    /// Appends an unsigned 16-bit scalar node; returns its position.
    pub fn add_u16(&mut self, value: u16) -> (idx: NodeIndex)
        requires
            old(self).nodes@.len() < 0x7fff_ffff,
        ensures
            final(self).nodes@ == old(self).nodes@.push(WitNode::PrimU16(value)),
            final(self).reserved@ == old(self).reserved@,
            idx == old(self).nodes@.len(),
    {
        self.push_node(WitNode::PrimU16(value))
    }

    /// Appends an unsigned 32-bit scalar node; returns its position.
    pub fn add_u32(&mut self, value: u32) -> (idx: NodeIndex)
        requires
            old(self).nodes@.len() < 0x7fff_ffff,
        ensures
            final(self).nodes@ == old(self).nodes@.push(WitNode::PrimU32(value)),
            final(self).reserved@ == old(self).reserved@,
            idx == old(self).nodes@.len(),
    {
        self.push_node(WitNode::PrimU32(value))
    }

    /// Appends an unsigned 64-bit scalar node; returns its position.
    pub fn add_u64(&mut self, value: u64) -> (idx: NodeIndex)
        requires
            old(self).nodes@.len() < 0x7fff_ffff,
        ensures
            final(self).nodes@ == old(self).nodes@.push(WitNode::PrimU64(value)),
            final(self).reserved@ == old(self).reserved@,
            idx == old(self).nodes@.len(),
    {
        self.push_node(WitNode::PrimU64(value))
    }

    /// Appends a signed 8-bit scalar node; returns its position.
    pub fn add_s8(&mut self, value: i8) -> (idx: NodeIndex)
        requires
            old(self).nodes@.len() < 0x7fff_ffff,
        ensures
            final(self).nodes@ == old(self).nodes@.push(WitNode::PrimS8(value)),
            final(self).reserved@ == old(self).reserved@,
            idx == old(self).nodes@.len(),
    {
        self.push_node(WitNode::PrimS8(value))
    }

    /// Appends a signed 16-bit scalar node; returns its position.
    pub fn add_s16(&mut self, value: i16) -> (idx: NodeIndex)
        requires
            old(self).nodes@.len() < 0x7fff_ffff,
        ensures
            final(self).nodes@ == old(self).nodes@.push(WitNode::PrimS16(value)),
            final(self).reserved@ == old(self).reserved@,
            idx == old(self).nodes@.len(),
    {
        self.push_node(WitNode::PrimS16(value))
    }

    /// Appends a signed 32-bit scalar node; returns its position.
    pub fn add_s32(&mut self, value: i32) -> (idx: NodeIndex)
        requires
            old(self).nodes@.len() < 0x7fff_ffff,
        ensures
            final(self).nodes@ == old(self).nodes@.push(WitNode::PrimS32(value)),
            final(self).reserved@ == old(self).reserved@,
            idx == old(self).nodes@.len(),
    {
        self.push_node(WitNode::PrimS32(value))
    }

    /// Appends a signed 64-bit scalar node; returns its position.
    pub fn add_s64(&mut self, value: i64) -> (idx: NodeIndex)
        requires
            old(self).nodes@.len() < 0x7fff_ffff,
        ensures
            final(self).nodes@ == old(self).nodes@.push(WitNode::PrimS64(value)),
            final(self).reserved@ == old(self).reserved@,
            idx == old(self).nodes@.len(),
    {
        self.push_node(WitNode::PrimS64(value))
    }

    /// Appends a 32-bit float scalar node, given as its IEEE-754 bit
    /// pattern; returns its position.
    pub fn add_f32(&mut self, bits: u32) -> (idx: NodeIndex)
        requires
            old(self).nodes@.len() < 0x7fff_ffff,
        ensures
            final(self).nodes@ == old(self).nodes@.push(WitNode::PrimFloat32(bits)),
            final(self).reserved@ == old(self).reserved@,
            idx == old(self).nodes@.len(),
    {
        self.push_node(WitNode::PrimFloat32(bits))
    }

    /// Appends a 64-bit float scalar node, given as its IEEE-754 bit
    /// pattern; returns its position.
    pub fn add_f64(&mut self, bits: u64) -> (idx: NodeIndex)
        requires
            old(self).nodes@.len() < 0x7fff_ffff,
        ensures
            final(self).nodes@ == old(self).nodes@.push(WitNode::PrimFloat64(bits)),
            final(self).reserved@ == old(self).reserved@,
            idx == old(self).nodes@.len(),
    {
        self.push_node(WitNode::PrimFloat64(bits))
    }

    /// Appends a character scalar node; returns its position.
    pub fn add_char(&mut self, value: char) -> (idx: NodeIndex)
        requires
            old(self).nodes@.len() < 0x7fff_ffff,
        ensures
            final(self).nodes@ == old(self).nodes@.push(WitNode::PrimChar(value)),
            final(self).reserved@ == old(self).reserved@,
            idx == old(self).nodes@.len(),
    {
        self.push_node(WitNode::PrimChar(value))
    }

    /// Appends a string scalar node; returns its position.
    pub fn add_string(&mut self, value: String) -> (idx: NodeIndex)
        requires
            old(self).nodes@.len() < 0x7fff_ffff,
        ensures
            final(self).nodes@ == old(self).nodes@.push(WitNode::PrimString(value)),
            final(self).reserved@ == old(self).reserved@,
            idx == old(self).nodes@.len(),
    {
        self.push_node(WitNode::PrimString(value))
    }

    /// Reserves a list container node (child positions still unknown);
    /// returns its position.
    pub fn add_list(&mut self) -> (idx: NodeIndex)
        requires
            old(self).nodes@.len() < 0x7fff_ffff,
        ensures
            final(self).nodes@.len() == old(self).nodes@.len() + 1,
            node_views(final(self).nodes@) == node_views(old(self).nodes@).push(
                WitNodeView::ListValue(Seq::empty()),
            ),
            final(self).reserved@ == old(self).reserved@.insert(old(self).nodes@.len() as int),
            idx == old(self).nodes@.len(),
    {
        let idx = self.push_node(WitNode::ListValue(Vec::new()));
        self.reserved = Ghost(self.reserved@.insert(idx as int));
        proof {
            lemma_node_views_push(old(self).nodes@, self.nodes@.last());
            assert(index_views(Seq::<NodeIndex>::empty()) =~= Seq::<int>::empty());
            assert(node_views(self.nodes@) == node_views(old(self).nodes@).push(
                WitNodeView::ListValue(Seq::empty()),
            ));
        }
        idx
    }

    /// Reserves a tuple container node; returns its position.
    pub fn add_tuple(&mut self) -> (idx: NodeIndex)
        requires
            old(self).nodes@.len() < 0x7fff_ffff,
        ensures
            final(self).nodes@.len() == old(self).nodes@.len() + 1,
            node_views(final(self).nodes@) == node_views(old(self).nodes@).push(
                WitNodeView::TupleValue(Seq::empty()),
            ),
            final(self).reserved@ == old(self).reserved@.insert(old(self).nodes@.len() as int),
            idx == old(self).nodes@.len(),
    {
        let idx = self.push_node(WitNode::TupleValue(Vec::new()));
        self.reserved = Ghost(self.reserved@.insert(idx as int));
        proof {
            lemma_node_views_push(old(self).nodes@, self.nodes@.last());
            assert(index_views(Seq::<NodeIndex>::empty()) =~= Seq::<int>::empty());
            assert(node_views(self.nodes@) == node_views(old(self).nodes@).push(
                WitNodeView::TupleValue(Seq::empty()),
            ));
        }
        idx
    }

    /// Reserves a record container node; returns its position.
    pub fn add_record(&mut self) -> (idx: NodeIndex)
        requires
            old(self).nodes@.len() < 0x7fff_ffff,
        ensures
            final(self).nodes@.len() == old(self).nodes@.len() + 1,
            node_views(final(self).nodes@) == node_views(old(self).nodes@).push(
                WitNodeView::RecordValue(Seq::empty()),
            ),
            final(self).reserved@ == old(self).reserved@.insert(old(self).nodes@.len() as int),
            idx == old(self).nodes@.len(),
    {
        let idx = self.push_node(WitNode::RecordValue(Vec::new()));
        self.reserved = Ghost(self.reserved@.insert(idx as int));
        proof {
            lemma_node_views_push(old(self).nodes@, self.nodes@.last());
            assert(index_views(Seq::<NodeIndex>::empty()) =~= Seq::<int>::empty());
            assert(node_views(self.nodes@) == node_views(old(self).nodes@).push(
                WitNodeView::RecordValue(Seq::empty()),
            ));
        }
        idx
    }

    /// Reserves a variant node carrying `case_idx`, its payload's position
    /// still unknown; returns the node's position.
    pub fn add_variant(&mut self, case_idx: u32) -> (idx: NodeIndex)
        requires
            old(self).nodes@.len() < 0x7fff_ffff,
        ensures
            final(self).nodes@ == old(self).nodes@.push(WitNode::VariantValue(case_idx, None)),
            final(self).reserved@ == old(self).reserved@.insert(old(self).nodes@.len() as int),
            idx == old(self).nodes@.len(),
    {
        let idx = self.push_node(WitNode::VariantValue(case_idx, None));
        self.reserved = Ghost(self.reserved@.insert(idx as int));
        idx
    }

    /// Appends a payload-less variant node, fully formed; returns its
    /// position.
    pub fn add_variant_unit(&mut self, case_idx: u32) -> (idx: NodeIndex)
        requires
            old(self).nodes@.len() < 0x7fff_ffff,
        ensures
            final(self).nodes@ == old(self).nodes@.push(WitNode::VariantValue(case_idx, None)),
            final(self).reserved@ == old(self).reserved@,
            idx == old(self).nodes@.len(),
    {
        self.push_node(WitNode::VariantValue(case_idx, None))
    }

    /// Appends an enum node, fully formed; returns its position.
    pub fn add_enum_value(&mut self, case_idx: u32) -> (idx: NodeIndex)
        requires
            old(self).nodes@.len() < 0x7fff_ffff,
        ensures
            final(self).nodes@ == old(self).nodes@.push(WitNode::EnumValue(case_idx)),
            final(self).reserved@ == old(self).reserved@,
            idx == old(self).nodes@.len(),
    {
        self.push_node(WitNode::EnumValue(case_idx))
    }

    /// Appends a flags node, fully formed (the booleans are packed inline);
    /// returns its position.
    pub fn add_flags(&mut self, flags: Vec<bool>) -> (idx: NodeIndex)
        requires
            old(self).nodes@.len() < 0x7fff_ffff,
        ensures
            final(self).nodes@ == old(self).nodes@.push(WitNode::FlagsValue(flags)),
            final(self).reserved@ == old(self).reserved@,
            idx == old(self).nodes@.len(),
    {
        self.push_node(WitNode::FlagsValue(flags))
    }

    /// Reserves an option node that will carry a payload; returns its
    /// position.
    pub fn add_option_some(&mut self) -> (idx: NodeIndex)
        requires
            old(self).nodes@.len() < 0x7fff_ffff,
        ensures
            final(self).nodes@ == old(self).nodes@.push(WitNode::OptionValue(None)),
            final(self).reserved@ == old(self).reserved@.insert(old(self).nodes@.len() as int),
            idx == old(self).nodes@.len(),
    {
        let idx = self.push_node(WitNode::OptionValue(None));
        self.reserved = Ghost(self.reserved@.insert(idx as int));
        idx
    }

    /// Appends an absent option node, fully formed; returns its position.
    pub fn add_option_none(&mut self) -> (idx: NodeIndex)
        requires
            old(self).nodes@.len() < 0x7fff_ffff,
        ensures
            final(self).nodes@ == old(self).nodes@.push(WitNode::OptionValue(None)),
            final(self).reserved@ == old(self).reserved@,
            idx == old(self).nodes@.len(),
    {
        self.push_node(WitNode::OptionValue(None))
    }

    /// Reserves a success-arm result node that will carry a payload; returns
    /// its position.
    pub fn add_result_ok(&mut self) -> (idx: NodeIndex)
        requires
            old(self).nodes@.len() < 0x7fff_ffff,
        ensures
            final(self).nodes@ == old(self).nodes@.push(WitNode::ResultValue(Ok(None))),
            final(self).reserved@ == old(self).reserved@.insert(old(self).nodes@.len() as int),
            idx == old(self).nodes@.len(),
    {
        let idx = self.push_node(WitNode::ResultValue(Ok(None)));
        self.reserved = Ghost(self.reserved@.insert(idx as int));
        idx
    }

    /// Appends a unit success-arm result node, fully formed; returns its
    /// position.
    pub fn add_result_ok_unit(&mut self) -> (idx: NodeIndex)
        requires
            old(self).nodes@.len() < 0x7fff_ffff,
        ensures
            final(self).nodes@ == old(self).nodes@.push(WitNode::ResultValue(Ok(None))),
            final(self).reserved@ == old(self).reserved@,
            idx == old(self).nodes@.len(),
    {
        self.push_node(WitNode::ResultValue(Ok(None)))
    }

    /// Reserves a failure-arm result node that will carry a payload; returns
    /// its position.
    pub fn add_result_err(&mut self) -> (idx: NodeIndex)
        requires
            old(self).nodes@.len() < 0x7fff_ffff,
        ensures
            final(self).nodes@ == old(self).nodes@.push(WitNode::ResultValue(Err(None))),
            final(self).reserved@ == old(self).reserved@.insert(old(self).nodes@.len() as int),
            idx == old(self).nodes@.len(),
    {
        let idx = self.push_node(WitNode::ResultValue(Err(None)));
        self.reserved = Ghost(self.reserved@.insert(idx as int));
        idx
    }

    /// Appends a unit failure-arm result node, fully formed; returns its
    /// position.
    pub fn add_result_err_unit(&mut self) -> (idx: NodeIndex)
        requires
            old(self).nodes@.len() < 0x7fff_ffff,
        ensures
            final(self).nodes@ == old(self).nodes@.push(WitNode::ResultValue(Err(None))),
            final(self).reserved@ == old(self).reserved@,
            idx == old(self).nodes@.len(),
    {
        self.push_node(WitNode::ResultValue(Err(None)))
    }

    /// Installs the position of the single child of the reserved container
    /// at `target`.
    pub fn finish_child(&mut self, child: NodeIndex, target: NodeIndex)
        requires
            0 <= target < old(self).nodes@.len(),
            old(self).reserved@.contains(target as int),
            takes_child(node_views(old(self).nodes@)[target as int]),
        ensures
            final(self).nodes@.len() == old(self).nodes@.len(),
            node_views(final(self).nodes@) == node_views(old(self).nodes@).update(
                target as int,
                with_child_view(node_views(old(self).nodes@)[target as int], child as int),
            ),
            final(self).reserved@ == old(self).reserved@.remove(target as int),
    {
        let t = target as usize;
        let ghost pre = self.nodes@;
        let patched: Option<WitNode> = match &self.nodes[t] {
            WitNode::VariantValue(case_idx, None) => Some(
                WitNode::VariantValue(*case_idx, Some(child)),
            ),
            WitNode::OptionValue(None) => Some(WitNode::OptionValue(Some(child))),
            WitNode::ResultValue(Ok(None)) => Some(WitNode::ResultValue(Ok(Some(child)))),
            WitNode::ResultValue(Err(None)) => Some(WitNode::ResultValue(Err(Some(child)))),
            _ => None,
        };
        match patched {
            Some(node) => {
                self.nodes[t] = node;
            },
            None => {
            },
        }
        self.reserved = Ghost(self.reserved@.remove(target as int));
        proof {
            lemma_node_views_update(pre, t as int, self.nodes@[t as int]);
            assert(node_views(self.nodes@) =~= node_views(pre).update(
                target as int,
                with_child_view(node_views(pre)[target as int], child as int),
            ));
        }
    }

    /// Installs the ordered child positions of the reserved sequence
    /// container at `target`.
    pub fn finish_seq(&mut self, children: Vec<NodeIndex>, target: NodeIndex)
        requires
            0 <= target < old(self).nodes@.len(),
            old(self).reserved@.contains(target as int),
            takes_children(node_views(old(self).nodes@)[target as int]),
        ensures
            final(self).nodes@.len() == old(self).nodes@.len(),
            node_views(final(self).nodes@) == node_views(old(self).nodes@).update(
                target as int,
                with_children_view(
                    node_views(old(self).nodes@)[target as int],
                    index_views(children@),
                ),
            ),
            final(self).reserved@ == old(self).reserved@.remove(target as int),
    {
        let t = target as usize;
        let ghost pre = self.nodes@;
        let patched: Option<WitNode> = match &self.nodes[t] {
            WitNode::ListValue(_) => Some(WitNode::ListValue(children)),
            WitNode::TupleValue(_) => Some(WitNode::TupleValue(children)),
            WitNode::RecordValue(_) => Some(WitNode::RecordValue(children)),
            _ => None,
        };
        match patched {
            Some(node) => {
                self.nodes[t] = node;
            },
            None => {
            },
        }
        self.reserved = Ghost(self.reserved@.remove(target as int));
        proof {
            lemma_node_views_update(pre, t as int, self.nodes@[t as int]);
            assert(node_views(self.nodes@) =~= node_views(pre).update(
                target as int,
                with_children_view(node_views(pre)[target as int], index_views(children@)),
            ));
        }
    }

    /// Consumes the builder and returns the completed sequence; every
    /// reservation must have been finished.
    pub fn build(self) -> (w: WitValue)
        requires
            self.reserved@ == Set::<int>::empty(),
        ensures
            w.nodes == self.nodes,
    {
        WitValue { nodes: self.nodes }
    }
}

} // verus!
