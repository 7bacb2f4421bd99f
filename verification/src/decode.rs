use vstd::prelude::*;

use crate::node::child_positions;
use crate::node::copy_bools;
use crate::node::MAX_NESTING_DEPTH;
use crate::node::index_views;
use crate::node::node_views;
use crate::node::NodeIndex;
use crate::node::WitNode;
use crate::node::WitNodeView;
use crate::node::WitValue;
use crate::value::lemma_models_from;
use crate::value::Value;
use crate::value::ValueView;

verus! {

/// A structured decoding failure. A wire form may come from an untrusted
/// peer, so a malformed one is reported, never followed blindly.
#[derive(Debug, PartialEq)]
pub enum DecodeError {
    /// The node sequence is empty, so there is no root to decode.
    EmptyNodes,
    /// The node at position `node` refers to `index`, which is outside the
    /// sequence.
    IndexOutOfRange { node: usize, index: NodeIndex },
    /// The node at position `node` refers to `index`, which does not point
    /// strictly forward.
    NonForwardIndex { node: usize, index: NodeIndex },
    /// Decoding reached the configured nesting-depth limit at position
    /// `node` before the tree bottomed out.
    DepthLimitExceeded { node: usize },
}

/// Whether error `e` truthfully describes `nodes`: the node it names is in
/// range and really carries the offending reference, and that reference is
/// out of range or fails to point strictly forward, as the variant says.
pub open spec fn error_describes(nodes: Seq<WitNodeView>, e: DecodeError) -> bool {
    match e {
        DecodeError::EmptyNodes => nodes.len() == 0,
        DecodeError::IndexOutOfRange { node, index } => {
            &&& node < nodes.len()
            &&& child_positions(nodes[node as int]).contains(index as int)
            &&& (index < 0 || index as int >= nodes.len())
        },
        DecodeError::NonForwardIndex { node, index } => {
            &&& node < nodes.len()
            &&& child_positions(nodes[node as int]).contains(index as int)
            &&& 0 <= index as int <= node as int
            &&& (index as int) < nodes.len()
        },
        DecodeError::DepthLimitExceeded { node } => node < nodes.len(),
    }
}

/// The value that the node at position `i` of `nodes` stands for, or `None`
/// if `i` is out of range or some reference reachable from it is out of
/// range or fails to point strictly forward.
pub open spec fn dec(nodes: Seq<WitNodeView>, i: int) -> Option<ValueView>
    decreases nodes.len() - i, 0int, 0int,
{
    if i < 0 || i >= nodes.len() {
        None
    } else {
        match nodes[i] {
            WitNodeView::PrimBool(b) => Some(ValueView::Bool(b)),
            WitNodeView::PrimU8(n) => Some(ValueView::U8(n)),
            WitNodeView::PrimU16(n) => Some(ValueView::U16(n)),
            WitNodeView::PrimU32(n) => Some(ValueView::U32(n)),
            WitNodeView::PrimU64(n) => Some(ValueView::U64(n)),
            WitNodeView::PrimS8(n) => Some(ValueView::S8(n)),
            WitNodeView::PrimS16(n) => Some(ValueView::S16(n)),
            WitNodeView::PrimS32(n) => Some(ValueView::S32(n)),
            WitNodeView::PrimS64(n) => Some(ValueView::S64(n)),
            WitNodeView::PrimFloat32(bits) => Some(ValueView::F32(bits)),
            WitNodeView::PrimFloat64(bits) => Some(ValueView::F64(bits)),
            WitNodeView::PrimChar(c) => Some(ValueView::Char(c)),
            WitNodeView::PrimString(s) => Some(ValueView::String(s)),
            WitNodeView::ListValue(idxs) => match dec_children(nodes, idxs, 0, i) {
                Some(vs) => Some(ValueView::List(vs)),
                None => None,
            },
            WitNodeView::TupleValue(idxs) => match dec_children(nodes, idxs, 0, i) {
                Some(vs) => Some(ValueView::Tuple(vs)),
                None => None,
            },
            WitNodeView::RecordValue(idxs) => match dec_children(nodes, idxs, 0, i) {
                Some(vs) => Some(ValueView::Record(vs)),
                None => None,
            },
            WitNodeView::VariantValue(case_idx, Some(ci)) => if i < ci < nodes.len() {
                match dec(nodes, ci) {
                    Some(v) => Some(
                        ValueView::Variant { case_idx, case_value: Some(Box::new(v)) },
                    ),
                    None => None,
                }
            } else {
                None
            },
            WitNodeView::VariantValue(case_idx, None) => Some(
                ValueView::Variant { case_idx, case_value: None },
            ),
            WitNodeView::EnumValue(case_idx) => Some(ValueView::Enum(case_idx)),
            WitNodeView::FlagsValue(flags) => Some(ValueView::Flags(flags)),
            WitNodeView::OptionValue(Some(ci)) => if i < ci < nodes.len() {
                match dec(nodes, ci) {
                    Some(v) => Some(ValueView::Option(Some(Box::new(v)))),
                    None => None,
                }
            } else {
                None
            },
            WitNodeView::OptionValue(None) => Some(ValueView::Option(None)),
            WitNodeView::ResultValue(Ok(Some(ci))) => if i < ci < nodes.len() {
                match dec(nodes, ci) {
                    Some(v) => Some(ValueView::Result(Ok(Some(Box::new(v))))),
                    None => None,
                }
            } else {
                None
            },
            WitNodeView::ResultValue(Ok(None)) => Some(ValueView::Result(Ok(None))),
            WitNodeView::ResultValue(Err(Some(ci))) => if i < ci < nodes.len() {
                match dec(nodes, ci) {
                    Some(v) => Some(ValueView::Result(Err(Some(Box::new(v))))),
                    None => None,
                }
            } else {
                None
            },
            WitNodeView::ResultValue(Err(None)) => Some(ValueView::Result(Err(None))),
        }
    }
}

/// The values that the child positions `idxs[j]`, `idxs[j + 1]`, ... of the
/// container at `parent` stand for, in order, or `None` as in `dec`.
pub open spec fn dec_children(
    nodes: Seq<WitNodeView>,
    idxs: Seq<int>,
    j: int,
    parent: int,
) -> Option<Seq<ValueView>>
    decreases nodes.len() - parent - 1, 1int, idxs.len() - j,
{
    if j < 0 || j >= idxs.len() {
        Some(Seq::empty())
    } else if !(parent < idxs[j] < nodes.len()) {
        None
    } else {
        match dec(nodes, idxs[j]) {
            None => None,
            Some(v) => match dec_children(nodes, idxs, j + 1, parent) {
                None => None,
                Some(rest) => Some(seq![v] + rest),
            },
        }
    }
}

/// The first fault a bounded decode of position `i` meets, in decode
/// order, or `None` when the bounded decode succeeds: the depth limit when
/// `budget` levels are used up, otherwise the first reference that leaves
/// the sequence or fails to point strictly forward. This is a function of
/// the input, so what `decode` reports is the same on every call.
pub open spec fn first_fault(nodes: Seq<WitNodeView>, i: int, budget: nat) -> Option<DecodeError>
    decreases nodes.len() - i, 0int, 1int,
{
    if i < 0 || i >= nodes.len() {
        None
    } else if budget == 0 {
        Some(DecodeError::DepthLimitExceeded { node: i as usize })
    } else {
        match nodes[i] {
            WitNodeView::ListValue(idxs) => first_fault_children(nodes, idxs, 0, i, budget),
            WitNodeView::TupleValue(idxs) => first_fault_children(nodes, idxs, 0, i, budget),
            WitNodeView::RecordValue(idxs) => first_fault_children(nodes, idxs, 0, i, budget),
            WitNodeView::VariantValue(_, Some(ci)) => first_payload_fault(nodes, i, ci, budget),
            WitNodeView::OptionValue(Some(ci)) => first_payload_fault(nodes, i, ci, budget),
            WitNodeView::ResultValue(Ok(Some(ci))) => first_payload_fault(nodes, i, ci, budget),
            WitNodeView::ResultValue(Err(Some(ci))) => first_payload_fault(nodes, i, ci, budget),
            _ => None,
        }
    }
}

/// The first fault of following the single payload reference `ci` of the
/// node at `i`.
pub open spec fn first_payload_fault(nodes: Seq<WitNodeView>, i: int, ci: int, budget: nat)
    -> Option<DecodeError>
    decreases nodes.len() - i, 0int, 0int,
{
    if ci < 0 || ci >= nodes.len() {
        Some(DecodeError::IndexOutOfRange { node: i as usize, index: ci as NodeIndex })
    } else if ci <= i {
        Some(DecodeError::NonForwardIndex { node: i as usize, index: ci as NodeIndex })
    } else {
        first_fault(nodes, ci, (budget - 1) as nat)
    }
}

/// The first fault of following the child references `idxs[j]`,
/// `idxs[j + 1]`, ... of the container at `parent`, whose own decode has
/// `budget` levels left.
pub open spec fn first_fault_children(
    nodes: Seq<WitNodeView>,
    idxs: Seq<int>,
    j: int,
    parent: int,
    budget: nat,
) -> Option<DecodeError>
    decreases nodes.len() - parent - 1, 1int, idxs.len() - j,
{
    if j < 0 || j >= idxs.len() {
        None
    } else if !(0 <= idxs[j] < nodes.len()) {
        Some(
            DecodeError::IndexOutOfRange { node: parent as usize, index: idxs[j] as NodeIndex },
        )
    } else if !(parent < idxs[j]) {
        Some(
            DecodeError::NonForwardIndex { node: parent as usize, index: idxs[j] as NodeIndex },
        )
    } else {
        match first_fault(nodes, idxs[j], (budget - 1) as nat) {
            Some(e) => Some(e),
            None => first_fault_children(nodes, idxs, j + 1, parent, budget),
        }
    }
}

/// Decodes the children of the container at `parent`, in the order `idxs`
/// gives them.
fn decode_children(
    nodes: &Vec<WitNode>,
    idxs: &Vec<NodeIndex>,
    parent: usize,
    budget: usize,
) -> (r: Result<Vec<Value>, DecodeError>)
    requires
        parent < nodes@.len(),
        budget >= 1,
        index_views(idxs@) == child_positions(node_views(nodes@)[parent as int]),
    ensures
        match r {
            Ok(vs) => dec_children(
                node_views(nodes@),
                index_views(idxs@),
                0,
                parent as int,
            ) == Some(Value::models_from(vs, 0)) && first_fault_children(
                node_views(nodes@),
                index_views(idxs@),
                0,
                parent as int,
                budget as nat,
            ) is None,
            Err(e) => first_fault_children(
                node_views(nodes@),
                index_views(idxs@),
                0,
                parent as int,
                budget as nat,
            ) == Some(e) && error_describes(node_views(nodes@), e) && (!(e
                is DepthLimitExceeded) ==> dec_children(
                node_views(nodes@),
                index_views(idxs@),
                0,
                parent as int,
            ) is None) && !(e is EmptyNodes),
        },
    decreases nodes@.len() - parent - 1, 1int, 0int,
{
    let ghost nv = node_views(nodes@);
    let ghost iv = index_views(idxs@);
    let mut out: Vec<Value> = Vec::new();
    let mut j: usize = 0;
    proof {
        lemma_models_from(out, 0);
        match dec_children(nv, iv, 0, parent as int) {
            Some(rest) => {
                assert(Value::models_from(out, 0) + rest =~= rest);
            },
            None => {},
        }
    }
    while j < idxs.len()
        invariant
            parent < nodes@.len(),
            budget >= 1,
            nv == node_views(nodes@),
            iv == index_views(idxs@),
            iv == child_positions(nv[parent as int]),
            iv.len() == idxs@.len(),
            0 <= j <= idxs@.len(),
            out@.len() == j,
            first_fault_children(nv, iv, 0, parent as int, budget as nat)
                == first_fault_children(nv, iv, j as int, parent as int, budget as nat),
            dec_children(nv, iv, 0, parent as int) == match dec_children(
                nv,
                iv,
                j as int,
                parent as int,
            ) {
                Some(rest) => Some(Value::models_from(out, 0) + rest),
                None => None::<Seq<ValueView>>,
            },
        decreases idxs@.len() - j,
    {
        let c = idxs[j];
        proof {
            assert(iv[j as int] == c as int);
        }
        if c < 0 || c as usize >= nodes.len() {
            proof {
                assert(dec_children(nv, iv, j as int, parent as int) is None);
                assert(iv[j as int] == c as int);
                assert(first_fault_children(nv, iv, j as int, parent as int, budget as nat)
                    == Some(DecodeError::IndexOutOfRange { node: parent, index: c }));
                assert(child_positions(nv[parent as int])[j as int] == c as int);
                assert(child_positions(nv[parent as int]).contains(c as int));
            }
            return Err(DecodeError::IndexOutOfRange { node: parent, index: c });
        }
        if c as usize <= parent {
            proof {
                assert(dec_children(nv, iv, j as int, parent as int) is None);
                assert(iv[j as int] == c as int);
                assert(first_fault_children(nv, iv, j as int, parent as int, budget as nat)
                    == Some(DecodeError::NonForwardIndex { node: parent, index: c }));
                assert(child_positions(nv[parent as int])[j as int] == c as int);
                assert(child_positions(nv[parent as int]).contains(c as int));
            }
            return Err(DecodeError::NonForwardIndex { node: parent, index: c });
        }
        let decoded = decode_node(nodes, c as usize, budget - 1);
        match decoded {
            Ok(v) => {
                let ghost prev = out;
                out.push(v);
                j = j + 1;
                proof {
                    lemma_models_from(prev, 0);
                    lemma_models_from(out, 0);
                    assert(Value::models_from(out, 0) =~= Value::models_from(prev, 0).push(
                        v@,
                    ));
                    match dec_children(nv, iv, j as int, parent as int) {
                        Some(rest) => {
                            assert(Value::models_from(prev, 0) + (seq![v@] + rest)
                                =~= Value::models_from(out, 0) + rest);
                        },
                        None => {},
                    }
                }
            },
            Err(e) => {
                return Err(e);
            },
        }
    }
    proof {
        assert(dec_children(nv, iv, j as int, parent as int) == Some(Seq::<ValueView>::empty()));
        assert(Value::models_from(out, 0) + Seq::<ValueView>::empty() =~= Value::models_from(
            out,
            0,
        ));
    }
    Ok(out)
}

/// Decodes the node at position `i` into the value it stands for, following
/// every reference it carries; a reference that leaves the sequence or fails
/// to point strictly forward is a structured error, never followed.
fn decode_node(nodes: &Vec<WitNode>, i: usize, budget: usize) -> (r: Result<Value, DecodeError>)
    requires
        i < nodes@.len(),
    ensures
        match r {
            Ok(v) => dec(node_views(nodes@), i as int) == Some(v@) && first_fault(
                node_views(nodes@),
                i as int,
                budget as nat,
            ) is None,
            Err(e) => first_fault(node_views(nodes@), i as int, budget as nat) == Some(e)
                && error_describes(node_views(nodes@), e) && (!(e is DepthLimitExceeded)
                ==> dec(node_views(nodes@), i as int) is None) && !(e is EmptyNodes),
        },
    decreases nodes@.len() - i, 0int, 0int,
{
    let ghost nv = node_views(nodes@);
    proof {
        assert(nv[i as int] == nodes@[i as int]@);
    }
    if budget == 0 {
        return Err(DecodeError::DepthLimitExceeded { node: i });
    }
    match &nodes[i] {
        WitNode::PrimBool(b) => Ok(Value::Bool(*b)),
        WitNode::PrimU8(n) => Ok(Value::U8(*n)),
        WitNode::PrimU16(n) => Ok(Value::U16(*n)),
        WitNode::PrimU32(n) => Ok(Value::U32(*n)),
        WitNode::PrimU64(n) => Ok(Value::U64(*n)),
        WitNode::PrimS8(n) => Ok(Value::S8(*n)),
        WitNode::PrimS16(n) => Ok(Value::S16(*n)),
        WitNode::PrimS32(n) => Ok(Value::S32(*n)),
        WitNode::PrimS64(n) => Ok(Value::S64(*n)),
        WitNode::PrimFloat32(bits) => Ok(Value::F32(*bits)),
        WitNode::PrimFloat64(bits) => Ok(Value::F64(*bits)),
        WitNode::PrimChar(c) => Ok(Value::Char(*c)),
        WitNode::PrimString(s) => Ok(Value::String(s.clone())),
        WitNode::ListValue(idxs) => {
            proof {
                assert(index_views(idxs@) == child_positions(nv[i as int]));
            }
            match decode_children(nodes, idxs, i, budget) {
                Ok(vs) => Ok(Value::List(vs)),
                Err(e) => Err(e),
            }
        },
        WitNode::TupleValue(idxs) => {
            proof {
                assert(index_views(idxs@) == child_positions(nv[i as int]));
            }
            match decode_children(nodes, idxs, i, budget) {
                Ok(vs) => Ok(Value::Tuple(vs)),
                Err(e) => Err(e),
            }
        },
        WitNode::RecordValue(idxs) => {
            proof {
                assert(index_views(idxs@) == child_positions(nv[i as int]));
            }
            match decode_children(nodes, idxs, i, budget) {
                Ok(vs) => Ok(Value::Record(vs)),
                Err(e) => Err(e),
            }
        },
        WitNode::VariantValue(case_idx, Some(ci)) => {
            let c = *ci;
            proof {
                assert(child_positions(nv[i as int])[0] == c as int);
                assert(child_positions(nv[i as int]).contains(c as int));
            }
            if c < 0 || c as usize >= nodes.len() {
                Err(DecodeError::IndexOutOfRange { node: i, index: c })
            } else if c as usize <= i {
                Err(DecodeError::NonForwardIndex { node: i, index: c })
            } else {
                match decode_node(nodes, c as usize, budget - 1) {
                    Ok(v) => Ok(
                        Value::Variant { case_idx: *case_idx, case_value: Some(Box::new(v)) },
                    ),
                    Err(e) => Err(e),
                }
            }
        },
        WitNode::VariantValue(case_idx, None) => Ok(
            Value::Variant { case_idx: *case_idx, case_value: None },
        ),
        WitNode::EnumValue(case_idx) => Ok(Value::Enum(*case_idx)),
        WitNode::FlagsValue(flags) => Ok(Value::Flags(copy_bools(flags))),
        WitNode::OptionValue(Some(ci)) => {
            let c = *ci;
            proof {
                assert(child_positions(nv[i as int])[0] == c as int);
                assert(child_positions(nv[i as int]).contains(c as int));
            }
            if c < 0 || c as usize >= nodes.len() {
                Err(DecodeError::IndexOutOfRange { node: i, index: c })
            } else if c as usize <= i {
                Err(DecodeError::NonForwardIndex { node: i, index: c })
            } else {
                match decode_node(nodes, c as usize, budget - 1) {
                    Ok(v) => Ok(Value::Option(Some(Box::new(v)))),
                    Err(e) => Err(e),
                }
            }
        },
        WitNode::OptionValue(None) => Ok(Value::Option(None)),
        WitNode::ResultValue(Ok(Some(ci))) => {
            let c = *ci;
            proof {
                assert(child_positions(nv[i as int])[0] == c as int);
                assert(child_positions(nv[i as int]).contains(c as int));
            }
            if c < 0 || c as usize >= nodes.len() {
                Err(DecodeError::IndexOutOfRange { node: i, index: c })
            } else if c as usize <= i {
                Err(DecodeError::NonForwardIndex { node: i, index: c })
            } else {
                match decode_node(nodes, c as usize, budget - 1) {
                    Ok(v) => Ok(Value::Result(Ok(Some(Box::new(v))))),
                    Err(e) => Err(e),
                }
            }
        },
        WitNode::ResultValue(Ok(None)) => Ok(Value::Result(Ok(None))),
        WitNode::ResultValue(Err(Some(ci))) => {
            let c = *ci;
            proof {
                assert(child_positions(nv[i as int])[0] == c as int);
                assert(child_positions(nv[i as int]).contains(c as int));
            }
            if c < 0 || c as usize >= nodes.len() {
                Err(DecodeError::IndexOutOfRange { node: i, index: c })
            } else if c as usize <= i {
                Err(DecodeError::NonForwardIndex { node: i, index: c })
            } else {
                match decode_node(nodes, c as usize, budget - 1) {
                    Ok(v) => Ok(Value::Result(Err(Some(Box::new(v))))),
                    Err(e) => Err(e),
                }
            }
        },
        WitNode::ResultValue(Err(None)) => Ok(Value::Result(Err(None))),
    }
}

/// Decodes a wire form back into the tree value it stands for, starting at
/// the root position 0.
///
/// On success the value is exactly the spec-level reading `dec` of the node
/// sequence. An empty sequence is rejected as `EmptyNodes`; otherwise the
/// error is exactly `first_fault` of the sequence — the first reference in
/// decode order that leaves the sequence or fails to point strictly
/// forward, with the offending node's position, or the depth limit when
/// nesting exceeds `MAX_NESTING_DEPTH` — so the same input always yields
/// the same result, error included, and only the depth limit can reject an
/// input whose reading succeeds.
pub fn decode(wit: &WitValue) -> (r: Result<Value, DecodeError>)
    ensures
        match r {
            Ok(v) => dec(wit@, 0) == Some(v@),
            Err(e) => {
                &&& error_describes(wit@, e)
                &&& ((e is EmptyNodes) <==> wit@.len() == 0)
                &&& wit@.len() > 0 ==> first_fault(wit@, 0, MAX_NESTING_DEPTH as nat) == Some(e)
                &&& !(e is DepthLimitExceeded) ==> dec(wit@, 0) is None
            },
        },
{
    if wit.nodes.len() == 0 {
        Err(DecodeError::EmptyNodes)
    } else {
        decode_node(&wit.nodes, 0, MAX_NESTING_DEPTH)
    }
}

} // verus!
