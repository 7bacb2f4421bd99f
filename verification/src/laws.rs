use vstd::prelude::*;

use crate::decode::dec;
use crate::decode::dec_children;
use crate::encode::child_index_seq;
use crate::encode::enc;
use crate::encode::enc_seq;
use crate::encode::lemma_enc_len;
use crate::encode::lemma_enc_seq_len;
use crate::encode::lemma_node_count_pos;
use crate::encode::lemma_prefix_plus_suffix;
use crate::encode::node_count;
use crate::encode::prefix_count;
use crate::encode::seq_node_count;
use crate::node::child_positions;
use crate::node::forward_refs_at;
use crate::node::well_formed;
use crate::node::WitNodeView;
use crate::value::ValueView;

verus! {

/// Whether node `n` is the node form of `v`'s own kind.
pub open spec fn same_kind(v: ValueView, n: WitNodeView) -> bool {
    match (v, n) {
        (ValueView::Bool(_), WitNodeView::PrimBool(_)) => true,
        (ValueView::U8(_), WitNodeView::PrimU8(_)) => true,
        (ValueView::U16(_), WitNodeView::PrimU16(_)) => true,
        (ValueView::U32(_), WitNodeView::PrimU32(_)) => true,
        (ValueView::U64(_), WitNodeView::PrimU64(_)) => true,
        (ValueView::S8(_), WitNodeView::PrimS8(_)) => true,
        (ValueView::S16(_), WitNodeView::PrimS16(_)) => true,
        (ValueView::S32(_), WitNodeView::PrimS32(_)) => true,
        (ValueView::S64(_), WitNodeView::PrimS64(_)) => true,
        (ValueView::F32(_), WitNodeView::PrimFloat32(_)) => true,
        (ValueView::F64(_), WitNodeView::PrimFloat64(_)) => true,
        (ValueView::Char(_), WitNodeView::PrimChar(_)) => true,
        (ValueView::String(_), WitNodeView::PrimString(_)) => true,
        (ValueView::List(_), WitNodeView::ListValue(_)) => true,
        (ValueView::Tuple(_), WitNodeView::TupleValue(_)) => true,
        (ValueView::Record(_), WitNodeView::RecordValue(_)) => true,
        (ValueView::Variant { .. }, WitNodeView::VariantValue(_, _)) => true,
        (ValueView::Enum(_), WitNodeView::EnumValue(_)) => true,
        (ValueView::Flags(_), WitNodeView::FlagsValue(_)) => true,
        (ValueView::Option(_), WitNodeView::OptionValue(_)) => true,
        (ValueView::Result(_), WitNodeView::ResultValue(_)) => true,
        _ => false,
    }
}

/// Root invariant: the wire form of `v` is never empty, and its first node
/// is the node of `v`'s own kind.
pub proof fn lemma_root_kind(v: ValueView, base: int)
    ensures
        enc(v, base).len() >= 1,
        same_kind(v, enc(v, base)[0]),
{
    lemma_enc_len(v, base);
    lemma_node_count_pos(v);
}

/// Forward-reference invariant, stated over one encoded subtree: every
/// child position carried by the node at offset `k` of `enc(v, base)` lies
/// strictly after that node's own position and inside the subtree.
pub proof fn lemma_enc_forward(v: ValueView, base: int)
    ensures
        forall|k: int, c: int|
            0 <= k < enc(v, base).len() && #[trigger] child_positions(enc(v, base)[k]).contains(c)
                ==> base + k < c < base + node_count(v),
    decreases v, 0int,
{
    lemma_enc_len(v, base);
    match v {
        ValueView::List(items) => {
            lemma_enc_container_at(v, items, base);
        },
        ValueView::Tuple(items) => {
            lemma_enc_container_at(v, items, base);
        },
        ValueView::Record(fields) => {
            lemma_enc_container_at(v, fields, base);
        },
        ValueView::Variant { case_idx: _, case_value: Some(inner) } => {
            lemma_enc_payload_at(v, *inner, base);
        },
        ValueView::Option(Some(inner)) => {
            lemma_enc_payload_at(v, *inner, base);
        },
        ValueView::Result(Ok(Some(inner))) => {
            lemma_enc_payload_at(v, *inner, base);
        },
        ValueView::Result(Err(Some(inner))) => {
            lemma_enc_payload_at(v, *inner, base);
        },
        _ => {
            assert(child_positions(enc(v, base)[0]) =~= Seq::<int>::empty());
        },
    }
}

/// Forward-reference invariant for a value with a single deferred payload.
proof fn lemma_enc_payload_at(v: ValueView, inner: ValueView, base: int)
    requires
        node_count(v) == 1 + node_count(inner),
        enc(v, base) == seq![enc(v, base)[0]] + enc(inner, base + 1),
        child_positions(enc(v, base)[0]) == seq![base + 1],
    ensures
        forall|k: int, c: int|
            0 <= k < enc(v, base).len() && #[trigger] child_positions(enc(v, base)[k]).contains(c)
                ==> base + k < c < base + node_count(v),
    decreases inner, 1int,
{
    lemma_enc_len(v, base);
    lemma_enc_len(inner, base + 1);
    lemma_enc_forward(inner, base + 1);
    assert forall|k: int, c: int|
        0 <= k < enc(v, base).len() && #[trigger] child_positions(enc(v, base)[k]).contains(c)
        implies base + k < c < base + node_count(v) by {
        if k == 0 {
            assert(child_positions(enc(v, base)[0])[0] == base + 1);
            assert(c == base + 1);
        } else {
            assert(enc(v, base)[k] == enc(inner, base + 1)[k - 1]);
            assert(child_positions(enc(inner, base + 1)[k - 1]).contains(c));
        }
    }
}

/// Forward-reference invariant for a sequence container and its subtrees.
proof fn lemma_enc_container_at(v: ValueView, items: Seq<ValueView>, base: int)
    requires
        node_count(v) == 1 + seq_node_count(items, 0),
        enc(v, base) == seq![enc(v, base)[0]] + enc_seq(items, 0, base + 1),
        child_positions(enc(v, base)[0]) == child_index_seq(items, base),
    ensures
        forall|k: int, c: int|
            0 <= k < enc(v, base).len() && #[trigger] child_positions(enc(v, base)[k]).contains(c)
                ==> base + k < c < base + node_count(v),
    decreases items, items.len() + 2,
{
    lemma_enc_len(v, base);
    lemma_enc_seq_len(items, 0, base + 1);
    lemma_enc_container_forward(items, base);
    assert forall|k: int, c: int|
        0 <= k < enc(v, base).len() && #[trigger] child_positions(enc(v, base)[k]).contains(c)
        implies base + k < c < base + node_count(v) by {
        if k == 0 {
            let idxs = child_index_seq(items, base);
            let j = choose|j: int| 0 <= j < idxs.len() && idxs[j] == c;
            assert(idxs[j] == c);
        } else {
            assert(enc(v, base)[k] == enc_seq(items, 0, base + 1)[k - 1]);
            assert(child_positions(enc_seq(items, 0, base + 1)[k - 1]).contains(c));
        }
    }
}

/// The forward-reference invariant for a sequence container's root node and
/// the concatenated child subtrees behind it.
proof fn lemma_enc_container_forward(items: Seq<ValueView>, base: int)
    ensures
        forall|j: int|
            0 <= j < items.len() ==> base + 1 <= #[trigger] child_index_seq(items, base)[j] < base
                + 1 + seq_node_count(items, 0),
        forall|k: int, c: int|
            0 <= k < enc_seq(items, 0, base + 1).len() && #[trigger] child_positions(
                enc_seq(items, 0, base + 1)[k],
            ).contains(c) ==> base + 1 + k < c < base + 1 + seq_node_count(items, 0),
    decreases items, items.len() + 1,
{
    assert forall|j: int| 0 <= j < items.len() implies base + 1 <= #[trigger] child_index_seq(
        items,
        base,
    )[j] < base + 1 + seq_node_count(items, 0) by {
        lemma_prefix_bound(items, j);
    }
    lemma_enc_seq_forward(items, 0, base + 1);
    lemma_enc_seq_len(items, 0, base + 1);
}

/// The count of a proper prefix, plus one node of the next value, stays
/// within the whole count.
proof fn lemma_prefix_bound(items: Seq<ValueView>, j: int)
    requires
        0 <= j < items.len(),
    ensures
        prefix_count(items, j) + 1 <= seq_node_count(items, 0),
{
    lemma_prefix_plus_suffix(items, j);
    lemma_node_count_pos(items[j]);
}

/// Forward-reference invariant for the concatenated wire forms of
/// `items[j]`, `items[j + 1]`, ....
proof fn lemma_enc_seq_forward(items: Seq<ValueView>, j: int, b: int)
    requires
        0 <= j <= items.len(),
    ensures
        forall|k: int, c: int|
            0 <= k < enc_seq(items, j, b).len() && #[trigger] child_positions(
                enc_seq(items, j, b)[k],
            ).contains(c) ==> b + k < c < b + seq_node_count(items, j),
    decreases items, items.len() - j,
{
    if j < items.len() {
        let cnt = node_count(items[j]) as int;
        lemma_enc_len(items[j], b);
        lemma_enc_forward(items[j], b);
        lemma_enc_seq_len(items, j, b);
        lemma_enc_seq_len(items, j + 1, b + cnt);
        lemma_enc_seq_forward(items, j + 1, b + cnt);
        assert forall|k: int, c: int|
            0 <= k < enc_seq(items, j, b).len() && #[trigger] child_positions(
                enc_seq(items, j, b)[k],
            ).contains(c) implies b + k < c < b + seq_node_count(items, j) by {
            if k < cnt {
                assert(enc_seq(items, j, b)[k] == enc(items[j], b)[k]);
                assert(child_positions(enc(items[j], b)[k]).contains(c));
            } else {
                assert(enc_seq(items, j, b)[k] == enc_seq(items, j + 1, b + cnt)[k - cnt]);
                assert(child_positions(enc_seq(items, j + 1, b + cnt)[k - cnt]).contains(c));
            }
        }
    }
}

/// Forward-reference invariant at the top level: every wire form the
/// encoder produces is well formed, with every reference pointing strictly
/// forward and staying inside the sequence.
pub proof fn lemma_encode_well_formed(v: ValueView)
    ensures
        well_formed(enc(v, 0)),
{
    lemma_root_kind(v, 0);
    lemma_enc_forward(v, 0);
    lemma_enc_len(v, 0);
    let nodes = enc(v, 0);
    assert forall|i: int| 0 <= i < nodes.len() implies #[trigger] forward_refs_at(nodes, i) by {
        assert forall|k: int|
            0 <= k < child_positions(nodes[i]).len() implies i < #[trigger] child_positions(
            nodes[i],
        )[k] < nodes.len() by {
            assert(child_positions(nodes[i]).contains(child_positions(nodes[i])[k]));
        }
    }
}

/// Round-trip law, generalized to an encoded subtree embedded in a larger
/// sequence: reading the sequence at the subtree's root yields exactly the
/// value the subtree encodes, whatever surrounds it.
pub proof fn lemma_dec_enc_embedded(nodes: Seq<WitNodeView>, v: ValueView, base: int)
    requires
        0 <= base,
        base + node_count(v) <= nodes.len(),
        nodes.subrange(base, base + node_count(v)) == enc(v, base),
    ensures
        dec(nodes, base) == Some(v),
    decreases v, 0int,
{
    lemma_enc_len(v, base);
    lemma_node_count_pos(v);
    assert(nodes[base] == enc(v, base)[0]);
    match v {
        ValueView::List(items) => {
            lemma_dec_enc_container(nodes, items, base);
            assert(items.subrange(0, items.len() as int) =~= items);
        },
        ValueView::Tuple(items) => {
            lemma_dec_enc_container(nodes, items, base);
            assert(items.subrange(0, items.len() as int) =~= items);
        },
        ValueView::Record(fields) => {
            lemma_dec_enc_container(nodes, fields, base);
            assert(fields.subrange(0, fields.len() as int) =~= fields);
        },
        ValueView::Variant { case_idx: _, case_value: Some(inner) } => {
            lemma_dec_enc_payload(nodes, v, *inner, base);
        },
        ValueView::Option(Some(inner)) => {
            lemma_dec_enc_payload(nodes, v, *inner, base);
        },
        ValueView::Result(Ok(Some(inner))) => {
            lemma_dec_enc_payload(nodes, v, *inner, base);
        },
        ValueView::Result(Err(Some(inner))) => {
            lemma_dec_enc_payload(nodes, v, *inner, base);
        },
        _ => {},
    }
}

/// The round-trip step for a container with a single deferred payload: the
/// payload subtree sits right after the container node.
proof fn lemma_dec_enc_payload(nodes: Seq<WitNodeView>, v: ValueView, inner: ValueView, base: int)
    requires
        0 <= base,
        base + node_count(v) <= nodes.len(),
        nodes.subrange(base, base + node_count(v)) == enc(v, base),
        node_count(v) == 1 + node_count(inner),
        enc(v, base) == seq![enc(v, base)[0]] + enc(inner, base + 1),
    ensures
        dec(nodes, base + 1) == Some(inner),
    decreases inner, 1int,
{
    lemma_enc_len(inner, base + 1);
    assert forall|i: int| 0 <= i < node_count(inner) implies nodes[base + 1 + i] == #[trigger] enc(
        inner,
        base + 1,
    )[i] by {
        assert(nodes.subrange(base, base + node_count(v))[i + 1] == enc(v, base)[i + 1]);
    }
    assert(nodes.subrange(base + 1, base + 1 + node_count(inner)) =~= enc(inner, base + 1));
    lemma_dec_enc_embedded(nodes, inner, base + 1);
}

/// The round-trip step for the children of a sequence container at `base`.
proof fn lemma_dec_enc_container(nodes: Seq<WitNodeView>, items: Seq<ValueView>, base: int)
    requires
        0 <= base,
        base + 1 + seq_node_count(items, 0) <= nodes.len(),
        nodes.subrange(base, base + 1 + seq_node_count(items, 0)) == seq![nodes[base]] + enc_seq(
            items,
            0,
            base + 1,
        ),
    ensures
        dec_children(nodes, child_index_seq(items, base), 0, base) == Some(
            items.subrange(0, items.len() as int),
        ),
    decreases items, items.len() + 1,
{
    lemma_enc_seq_len(items, 0, base + 1);
    assert forall|i: int| 0 <= i < seq_node_count(items, 0) implies nodes[base + 1 + i]
        == #[trigger] enc_seq(items, 0, base + 1)[i] by {
        assert(0 <= i + 1 < nodes.subrange(base, base + 1 + seq_node_count(items, 0)).len());
        assert(nodes.subrange(base, base + 1 + seq_node_count(items, 0))[i + 1] == nodes[base + 1
            + i]);
        assert(nodes.subrange(base, base + 1 + seq_node_count(items, 0))[i + 1] == (seq![
            nodes[base],
        ] + enc_seq(items, 0, base + 1))[i + 1]);
        assert((seq![nodes[base]] + enc_seq(items, 0, base + 1))[i + 1] == enc_seq(
            items,
            0,
            base + 1,
        )[i]);
    }
    assert(nodes.subrange(base + 1, base + 1 + seq_node_count(items, 0)) =~= enc_seq(
        items,
        0,
        base + 1,
    ));
    lemma_dec_enc_children(nodes, items, base, 0);
}

/// The round-trip step for the children of a sequence container, from the
/// `j`-th child on.
proof fn lemma_dec_enc_children(nodes: Seq<WitNodeView>, items: Seq<ValueView>, base: int, j: int)
    requires
        0 <= base,
        0 <= j <= items.len(),
        base + 1 + seq_node_count(items, 0) <= nodes.len(),
        nodes.subrange(
            base + 1 + prefix_count(items, j),
            base + 1 + seq_node_count(items, 0),
        ) == enc_seq(items, j, base + 1 + prefix_count(items, j)),
    ensures
        dec_children(nodes, child_index_seq(items, base), j, base) == Some(
            items.subrange(j, items.len() as int),
        ),
    decreases items, items.len() - j,
{
    let idxs = child_index_seq(items, base);
    if j == items.len() {
        assert(items.subrange(j, items.len() as int) =~= Seq::<ValueView>::empty());
    } else {
        let pos = base + 1 + prefix_count(items, j);
        lemma_prefix_plus_suffix(items, j);
        lemma_prefix_plus_suffix(items, j + 1);
        lemma_node_count_pos(items[j]);
        lemma_enc_len(items[j], pos);
        lemma_enc_seq_len(items, j + 1, pos + node_count(items[j]));
        let cnt = node_count(items[j]) as int;
        let end = base + 1 + seq_node_count(items, 0);
        assert(enc_seq(items, j, pos) == enc(items[j], pos) + enc_seq(items, j + 1, pos + cnt));
        assert forall|i: int| 0 <= i < cnt implies nodes[pos + i] == #[trigger] enc(
            items[j],
            pos,
        )[i] by {
            assert(nodes.subrange(pos, end)[i] == enc_seq(items, j, pos)[i]);
        }
        assert(nodes.subrange(pos, pos + cnt) =~= enc(items[j], pos));
        lemma_dec_enc_embedded(nodes, items[j], pos);
        assert(prefix_count(items, j + 1) == prefix_count(items, j) + cnt);
        assert forall|i: int| 0 <= i < seq_node_count(items, j + 1) implies nodes[pos + cnt + i]
            == #[trigger] enc_seq(items, j + 1, pos + cnt)[i] by {
            assert(nodes.subrange(pos, end)[cnt + i] == enc_seq(items, j, pos)[cnt + i]);
        }
        assert(nodes.subrange(base + 1 + prefix_count(items, j + 1), end) =~= enc_seq(
            items,
            j + 1,
            base + 1 + prefix_count(items, j + 1),
        ));
        lemma_dec_enc_children(nodes, items, base, j + 1);
        assert(idxs[j] == pos);
        assert(seq![items[j]] + items.subrange(j + 1, items.len() as int) =~= items.subrange(
            j,
            items.len() as int,
        ));
    }
}

/// Completeness of decoding: on a well-formed sequence, reading any
/// position succeeds. Together with `decode`'s own contract this says a
/// decode error only ever reports genuinely malformed input.
pub proof fn lemma_well_formed_decodes(nodes: Seq<WitNodeView>, i: int)
    requires
        well_formed(nodes),
        0 <= i < nodes.len(),
    ensures
        dec(nodes, i) is Some,
    decreases nodes.len() - i, 0int, 0int,
{
    assert(forward_refs_at(nodes, i));
    match nodes[i] {
        WitNodeView::ListValue(idxs) => {
            assert(child_positions(nodes[i]) == idxs);
            lemma_children_decode(nodes, idxs, 0, i);
        },
        WitNodeView::TupleValue(idxs) => {
            assert(child_positions(nodes[i]) == idxs);
            lemma_children_decode(nodes, idxs, 0, i);
        },
        WitNodeView::RecordValue(idxs) => {
            assert(child_positions(nodes[i]) == idxs);
            lemma_children_decode(nodes, idxs, 0, i);
        },
        WitNodeView::VariantValue(_, Some(ci)) => {
            assert(child_positions(nodes[i])[0] == ci);
            lemma_well_formed_decodes(nodes, ci);
        },
        WitNodeView::OptionValue(Some(ci)) => {
            assert(child_positions(nodes[i])[0] == ci);
            lemma_well_formed_decodes(nodes, ci);
        },
        WitNodeView::ResultValue(Ok(Some(ci))) => {
            assert(child_positions(nodes[i])[0] == ci);
            lemma_well_formed_decodes(nodes, ci);
        },
        WitNodeView::ResultValue(Err(Some(ci))) => {
            assert(child_positions(nodes[i])[0] == ci);
            lemma_well_formed_decodes(nodes, ci);
        },
        _ => {},
    }
}

/// Completeness of decoding for a container's children: when every child
/// position from `j` on points strictly forward from `parent` and into the
/// sequence, reading them all succeeds.
proof fn lemma_children_decode(nodes: Seq<WitNodeView>, idxs: Seq<int>, j: int, parent: int)
    requires
        well_formed(nodes),
        0 <= parent < nodes.len(),
        0 <= j,
        forall|k: int| 0 <= k < idxs.len() ==> parent < #[trigger] idxs[k] < nodes.len(),
    ensures
        dec_children(nodes, idxs, j, parent) is Some,
    decreases nodes.len() - parent - 1, 1int, idxs.len() - j,
{
    if j < idxs.len() {
        lemma_well_formed_decodes(nodes, idxs[j]);
        lemma_children_decode(nodes, idxs, j + 1, parent);
    }
}

/// Round-trip law: reading back the wire form of any value yields exactly
/// that value, scalar bit patterns, sequence order, case indices, flags and
/// the presence or absence of every payload included.
pub proof fn lemma_round_trip(v: ValueView)
    ensures
        dec(enc(v, 0), 0) == Some(v),
{
    lemma_enc_len(v, 0);
    assert(enc(v, 0).subrange(0, node_count(v) as int) =~= enc(v, 0));
    lemma_dec_enc_embedded(enc(v, 0), v, 0);
}

} // verus!
