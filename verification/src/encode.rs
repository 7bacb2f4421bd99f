use vstd::prelude::*;

use crate::builder::WitValueBuilder;
use crate::node::copy_bools;
use crate::node::index_views;
use crate::node::lemma_node_views_push;
use crate::node::node_views;
use crate::node::MAX_NESTING_DEPTH;
use crate::node::NodeIndex;
use crate::node::WitNode;
use crate::node::WitNodeView;
use crate::node::WitValue;
use crate::value::lemma_models_from;
use crate::value::Value;
use crate::value::ValueView;

verus! {

/// Number of nodes the wire form of `v` occupies: one for `v`'s own node,
/// plus the nodes of every transitive child. Flags are packed inline and
/// occupy no child nodes.
pub open spec fn node_count(v: ValueView) -> nat
    decreases v, 0int,
{
    match v {
        ValueView::List(items) => 1 + seq_node_count(items, 0),
        ValueView::Tuple(items) => 1 + seq_node_count(items, 0),
        ValueView::Record(fields) => 1 + seq_node_count(fields, 0),
        ValueView::Variant { case_idx: _, case_value: Some(inner) } => 1 + node_count(*inner),
        ValueView::Option(Some(inner)) => 1 + node_count(*inner),
        ValueView::Result(Ok(Some(inner))) => 1 + node_count(*inner),
        ValueView::Result(Err(Some(inner))) => 1 + node_count(*inner),
        _ => 1,
    }
}

/// Total node count of the values of `items` from position `i` on.
pub open spec fn seq_node_count(items: Seq<ValueView>, i: int) -> nat
    decreases items, items.len() - i,
{
    if i < 0 || i >= items.len() {
        0
    } else {
        node_count(items[i]) + seq_node_count(items, i + 1)
    }
}

/// Total node count of the first `j` values of `items`.
pub open spec fn prefix_count(items: Seq<ValueView>, j: int) -> nat
    decreases j,
{
    if j <= 0 {
        0
    } else {
        prefix_count(items, j - 1) + node_count(items[j - 1])
    }
}

/// The positions of the children of a container at position `base` whose
/// element values are `items`: the `j`-th child's subtree starts right after
/// the container node and the subtrees of its earlier siblings.
pub open spec fn child_index_seq(items: Seq<ValueView>, base: int) -> Seq<int> {
    Seq::new(items.len(), |j: int| base + 1 + prefix_count(items, j))
}

/// The wire form of `v` laid out with its root at position `base`: the root
/// node first, then the subtrees of its children in order, every position
/// already absolute.
pub open spec fn enc(v: ValueView, base: int) -> Seq<WitNodeView>
    decreases v, 0int,
{
    match v {
        ValueView::Bool(b) => seq![WitNodeView::PrimBool(b)],
        ValueView::U8(n) => seq![WitNodeView::PrimU8(n)],
        ValueView::U16(n) => seq![WitNodeView::PrimU16(n)],
        ValueView::U32(n) => seq![WitNodeView::PrimU32(n)],
        ValueView::U64(n) => seq![WitNodeView::PrimU64(n)],
        ValueView::S8(n) => seq![WitNodeView::PrimS8(n)],
        ValueView::S16(n) => seq![WitNodeView::PrimS16(n)],
        ValueView::S32(n) => seq![WitNodeView::PrimS32(n)],
        ValueView::S64(n) => seq![WitNodeView::PrimS64(n)],
        ValueView::F32(bits) => seq![WitNodeView::PrimFloat32(bits)],
        ValueView::F64(bits) => seq![WitNodeView::PrimFloat64(bits)],
        ValueView::Char(c) => seq![WitNodeView::PrimChar(c)],
        ValueView::String(s) => seq![WitNodeView::PrimString(s)],
        ValueView::List(items) => seq![
            WitNodeView::ListValue(child_index_seq(items, base)),
        ] + enc_seq(items, 0, base + 1),
        ValueView::Tuple(items) => seq![
            WitNodeView::TupleValue(child_index_seq(items, base)),
        ] + enc_seq(items, 0, base + 1),
        ValueView::Record(fields) => seq![
            WitNodeView::RecordValue(child_index_seq(fields, base)),
        ] + enc_seq(fields, 0, base + 1),
        ValueView::Variant { case_idx, case_value: Some(inner) } => seq![
            WitNodeView::VariantValue(case_idx, Some(base + 1)),
        ] + enc(*inner, base + 1),
        ValueView::Variant { case_idx, case_value: None } => seq![
            WitNodeView::VariantValue(case_idx, None),
        ],
        ValueView::Enum(case_idx) => seq![WitNodeView::EnumValue(case_idx)],
        ValueView::Flags(flags) => seq![WitNodeView::FlagsValue(flags)],
        ValueView::Option(Some(inner)) => seq![
            WitNodeView::OptionValue(Some(base + 1)),
        ] + enc(*inner, base + 1),
        ValueView::Option(None) => seq![WitNodeView::OptionValue(None)],
        ValueView::Result(Ok(Some(inner))) => seq![
            WitNodeView::ResultValue(Ok(Some(base + 1))),
        ] + enc(*inner, base + 1),
        ValueView::Result(Ok(None)) => seq![WitNodeView::ResultValue(Ok(None))],
        ValueView::Result(Err(Some(inner))) => seq![
            WitNodeView::ResultValue(Err(Some(base + 1))),
        ] + enc(*inner, base + 1),
        ValueView::Result(Err(None)) => seq![WitNodeView::ResultValue(Err(None))],
    }
}

/// The concatenated wire forms of the values of `items` from position `i`
/// on, the first of them laid out at position `base`.
pub open spec fn enc_seq(items: Seq<ValueView>, i: int, base: int) -> Seq<WitNodeView>
    decreases items, items.len() - i,
{
    if i < 0 || i >= items.len() {
        Seq::empty()
    } else {
        enc(items[i], base) + enc_seq(items, i + 1, base + node_count(items[i]))
    }
}

/// Nesting depth of `v`: one for the value itself, plus the deepest
/// payload below it.
pub open spec fn value_depth(v: ValueView) -> nat
    decreases v, 0int,
{
    match v {
        ValueView::List(items) => 1 + seq_value_depth(items, 0),
        ValueView::Tuple(items) => 1 + seq_value_depth(items, 0),
        ValueView::Record(fields) => 1 + seq_value_depth(fields, 0),
        ValueView::Variant { case_idx: _, case_value: Some(inner) } => 1 + value_depth(*inner),
        ValueView::Option(Some(inner)) => 1 + value_depth(*inner),
        ValueView::Result(Ok(Some(inner))) => 1 + value_depth(*inner),
        ValueView::Result(Err(Some(inner))) => 1 + value_depth(*inner),
        _ => 1,
    }
}

/// The deepest of the values of `items` from position `i` on.
pub open spec fn seq_value_depth(items: Seq<ValueView>, i: int) -> nat
    decreases items, items.len() - i,
{
    if i < 0 || i >= items.len() {
        0
    } else {
        let d = value_depth(items[i]);
        let rest = seq_value_depth(items, i + 1);
        if d >= rest {
            d
        } else {
            rest
        }
    }
}

/// No element is deeper than the deepest.
pub proof fn lemma_seq_depth_bound(items: Seq<ValueView>, i: int, j: int)
    requires
        0 <= i <= j < items.len(),
    ensures
        value_depth(items[j]) <= seq_value_depth(items, i),
    decreases j - i,
{
    if i < j {
        lemma_seq_depth_bound(items, i + 1, j);
    }
}

/// Every value occupies at least its own node.
pub proof fn lemma_node_count_pos(v: ValueView)
    ensures
        node_count(v) >= 1,
{
}

/// The counts of a prefix and of the matching suffix add up to the whole.
pub proof fn lemma_prefix_plus_suffix(items: Seq<ValueView>, j: int)
    requires
        0 <= j <= items.len(),
    ensures
        prefix_count(items, j) + seq_node_count(items, j) == seq_node_count(items, 0),
    decreases j,
{
    if j > 0 {
        lemma_prefix_plus_suffix(items, j - 1);
        lemma_step_suffix(items, j - 1);
    }
}

/// Unfolding of `seq_node_count` one element at a time.
proof fn lemma_step_suffix(items: Seq<ValueView>, i: int)
    requires
        0 <= i < items.len(),
    ensures
        seq_node_count(items, i) == node_count(items[i]) + seq_node_count(items, i + 1),
{
}

/// The wire form of `v` holds exactly `node_count(v)` nodes.
pub proof fn lemma_enc_len(v: ValueView, base: int)
    ensures
        enc(v, base).len() == node_count(v),
    decreases v, 0int,
{
    match v {
        ValueView::List(items) => lemma_enc_seq_len(items, 0, base + 1),
        ValueView::Tuple(items) => lemma_enc_seq_len(items, 0, base + 1),
        ValueView::Record(fields) => lemma_enc_seq_len(fields, 0, base + 1),
        ValueView::Variant { case_idx: _, case_value: Some(inner) } => lemma_enc_len(
            *inner,
            base + 1,
        ),
        ValueView::Option(Some(inner)) => lemma_enc_len(*inner, base + 1),
        ValueView::Result(Ok(Some(inner))) => lemma_enc_len(*inner, base + 1),
        ValueView::Result(Err(Some(inner))) => lemma_enc_len(*inner, base + 1),
        _ => {},
    }
}

/// The wire forms of `items` from `i` on hold exactly `seq_node_count(items, i)` nodes.
pub proof fn lemma_enc_seq_len(items: Seq<ValueView>, i: int, base: int)
    ensures
        enc_seq(items, i, base).len() == seq_node_count(items, i),
    decreases items, items.len() - i,
{
    if 0 <= i && i < items.len() {
        lemma_enc_len(items[i], base);
        lemma_enc_seq_len(items, i + 1, base + node_count(items[i]));
    }
}

/// Appending one node appends one model.
proof fn lemma_views_push_concat(nodes: Seq<WitNode>, n: WitNode)
    ensures
        node_views(nodes.push(n)) == node_views(nodes) + seq![n@],
{
    lemma_node_views_push(nodes, n);
    assert(node_views(nodes).push(n@) =~= node_views(nodes) + seq![n@]);
}

/// Appends the wire forms of the values of `items`, in order, and returns
/// the positions of their roots.
fn encode_items(items: &Vec<Value>, builder: &mut WitValueBuilder) -> (children: Vec<NodeIndex>)
    requires
        old(builder).nodes@.len() + seq_node_count(Value::models_from(*items, 0), 0)
            <= 0x7fff_ffff,
        seq_value_depth(Value::models_from(*items, 0), 0) < MAX_NESTING_DEPTH,
        forall|t: int|
            old(builder).reserved@.contains(t) ==> 0 <= t < old(builder).nodes@.len(),
    ensures
        final(builder).reserved@ == old(builder).reserved@,
        children@.len() == items@.len(),
        forall|j: int|
            0 <= j < items@.len() ==> #[trigger] children@[j] == old(builder).nodes@.len()
                + prefix_count(Value::models_from(*items, 0), j),
        final(builder).nodes@.len() == old(builder).nodes@.len() + seq_node_count(
            Value::models_from(*items, 0),
            0,
        ),
        node_views(final(builder).nodes@) == node_views(old(builder).nodes@) + enc_seq(
            Value::models_from(*items, 0),
            0,
            old(builder).nodes@.len() as int,
        ),
    decreases items, 0int,
{
    let ghost ms = Value::models_from(*items, 0);
    let ghost nodes0 = builder.nodes@;
    let ghost len0 = builder.nodes@.len() as int;
    proof {
        lemma_models_from(*items, 0);
    }
    let mut children: Vec<NodeIndex> = Vec::new();
    let mut i: usize = 0;
    while i < items.len()
        invariant
            0 <= i <= items@.len(),
            ms == Value::models_from(*items, 0),
            ms.len() == items@.len(),
            forall|j: int| 0 <= j < items@.len() ==> #[trigger] ms[j] == items@[j]@,
            nodes0 == old(builder).nodes@,
            len0 == nodes0.len() as int,
            len0 + seq_node_count(ms, 0) <= 0x7fff_ffff,
            seq_value_depth(ms, 0) < MAX_NESTING_DEPTH,
            children@.len() == i,
            forall|j: int|
                0 <= j < i ==> #[trigger] children@[j] == len0 + prefix_count(ms, j),
            builder.nodes@.len() == len0 + prefix_count(ms, i as int),
            builder.reserved@ == old(builder).reserved@,
            forall|t: int| builder.reserved@.contains(t) ==> 0 <= t < len0,
            node_views(builder.nodes@) + enc_seq(ms, i as int, builder.nodes@.len() as int)
                == node_views(nodes0) + enc_seq(ms, 0, len0),
        decreases items@.len() - i,
    {
        let ghost pre = builder.nodes@;
        let ghost lpre = builder.nodes@.len() as int;
        proof {
            lemma_prefix_plus_suffix(ms, i as int);
            lemma_step_suffix(ms, i as int);
            lemma_seq_depth_bound(ms, 0, i as int);
        }
        let idx = encode_into(&items[i], builder);
        children.push(idx);
        proof {
            lemma_enc_len(ms[i as int], lpre);
            assert(prefix_count(ms, i + 1) == prefix_count(ms, i as int) + node_count(
                ms[i as int],
            ));
            assert(enc_seq(ms, i as int, lpre) == enc(ms[i as int], lpre) + enc_seq(
                ms,
                i + 1,
                lpre + node_count(ms[i as int]),
            ));
            assert(node_views(builder.nodes@) + enc_seq(ms, i + 1, builder.nodes@.len() as int)
                =~= node_views(nodes0) + enc_seq(ms, 0, len0));
        }
        i = i + 1;
    }
    proof {
        lemma_prefix_plus_suffix(ms, ms.len() as int);
        assert(seq_node_count(ms, ms.len() as int) == 0);
        assert(enc_seq(ms, items@.len() as int, builder.nodes@.len() as int)
            == Seq::<WitNodeView>::empty());
        assert(node_views(builder.nodes@) + Seq::<WitNodeView>::empty() =~= node_views(
            builder.nodes@,
        ));
    }
    children
}

/// Appends the whole wire form of `value`, the root node first, and returns
/// the root's position.
fn encode_into(value: &Value, builder: &mut WitValueBuilder) -> (idx: NodeIndex)
    requires
        old(builder).nodes@.len() + node_count(value@) <= 0x7fff_ffff,
        value_depth(value@) <= MAX_NESTING_DEPTH,
        forall|t: int|
            old(builder).reserved@.contains(t) ==> 0 <= t < old(builder).nodes@.len(),
    ensures
        final(builder).reserved@ == old(builder).reserved@,
        idx == old(builder).nodes@.len(),
        final(builder).nodes@.len() == old(builder).nodes@.len() + node_count(value@),
        node_views(final(builder).nodes@) == node_views(old(builder).nodes@) + enc(
            value@,
            old(builder).nodes@.len() as int,
        ),
    decreases value, 1int,
{
    let ghost nodes0 = builder.nodes@;
    let ghost res0 = builder.reserved@;
    let ghost base = builder.nodes@.len() as int;
    let idx = match value {
        Value::Bool(b) => {
            let idx = builder.add_bool(*b);
            proof {
                lemma_views_push_concat(nodes0, WitNode::PrimBool(*b));
            }
            idx
        },
        Value::U8(n) => {
            let idx = builder.add_u8(*n);
            proof {
                lemma_views_push_concat(nodes0, WitNode::PrimU8(*n));
            }
            idx
        },
        Value::U16(n) => {
            let idx = builder.add_u16(*n);
            proof {
                lemma_views_push_concat(nodes0, WitNode::PrimU16(*n));
            }
            idx
        },
        Value::U32(n) => {
            let idx = builder.add_u32(*n);
            proof {
                lemma_views_push_concat(nodes0, WitNode::PrimU32(*n));
            }
            idx
        },
        Value::U64(n) => {
            let idx = builder.add_u64(*n);
            proof {
                lemma_views_push_concat(nodes0, WitNode::PrimU64(*n));
            }
            idx
        },
        Value::S8(n) => {
            let idx = builder.add_s8(*n);
            proof {
                lemma_views_push_concat(nodes0, WitNode::PrimS8(*n));
            }
            idx
        },
        Value::S16(n) => {
            let idx = builder.add_s16(*n);
            proof {
                lemma_views_push_concat(nodes0, WitNode::PrimS16(*n));
            }
            idx
        },
        Value::S32(n) => {
            let idx = builder.add_s32(*n);
            proof {
                lemma_views_push_concat(nodes0, WitNode::PrimS32(*n));
            }
            idx
        },
        Value::S64(n) => {
            let idx = builder.add_s64(*n);
            proof {
                lemma_views_push_concat(nodes0, WitNode::PrimS64(*n));
            }
            idx
        },
        Value::F32(bits) => {
            let idx = builder.add_f32(*bits);
            proof {
                lemma_views_push_concat(nodes0, WitNode::PrimFloat32(*bits));
            }
            idx
        },
        Value::F64(bits) => {
            let idx = builder.add_f64(*bits);
            proof {
                lemma_views_push_concat(nodes0, WitNode::PrimFloat64(*bits));
            }
            idx
        },
        Value::Char(c) => {
            let idx = builder.add_char(*c);
            proof {
                lemma_views_push_concat(nodes0, WitNode::PrimChar(*c));
            }
            idx
        },
        Value::String(s) => {
            let owned = s.clone();
            let idx = builder.add_string(owned);
            proof {
                lemma_views_push_concat(nodes0, builder.nodes@.last());
            }
            idx
        },
        Value::List(items) => {
            let ghost ms = Value::models_from(*items, 0);
            let idx = builder.add_list();
            let children = encode_items(items, builder);
            let ghost pre = builder.nodes@;
            proof {
                lemma_models_from(*items, 0);
                lemma_enc_seq_len(ms, 0, base + 1);
                assert(node_views(pre)[base] == WitNodeView::ListValue(Seq::empty()));
            }
            builder.finish_seq(children, idx);
            proof {
                assert(builder.reserved@ =~= res0);
                assert(index_views(children@) =~= child_index_seq(ms, base));
                assert(node_views(builder.nodes@) =~= node_views(nodes0) + enc(value@, base));
            }
            idx
        },
        Value::Tuple(items) => {
            let ghost ms = Value::models_from(*items, 0);
            let idx = builder.add_tuple();
            let children = encode_items(items, builder);
            let ghost pre = builder.nodes@;
            proof {
                lemma_models_from(*items, 0);
                lemma_enc_seq_len(ms, 0, base + 1);
                assert(node_views(pre)[base] == WitNodeView::TupleValue(Seq::empty()));
            }
            builder.finish_seq(children, idx);
            proof {
                assert(builder.reserved@ =~= res0);
                assert(index_views(children@) =~= child_index_seq(ms, base));
                assert(node_views(builder.nodes@) =~= node_views(nodes0) + enc(value@, base));
            }
            idx
        },
        Value::Record(fields) => {
            let ghost ms = Value::models_from(*fields, 0);
            let idx = builder.add_record();
            let children = encode_items(fields, builder);
            let ghost pre = builder.nodes@;
            proof {
                lemma_models_from(*fields, 0);
                lemma_enc_seq_len(ms, 0, base + 1);
                assert(node_views(pre)[base] == WitNodeView::RecordValue(Seq::empty()));
            }
            builder.finish_seq(children, idx);
            proof {
                assert(builder.reserved@ =~= res0);
                assert(index_views(children@) =~= child_index_seq(ms, base));
                assert(node_views(builder.nodes@) =~= node_views(nodes0) + enc(value@, base));
            }
            idx
        },
        Value::Variant { case_idx, case_value } => {
            match case_value {
                Some(inner) => {
                    let idx = builder.add_variant(*case_idx);
                    let child = encode_into(inner, builder);
                    let ghost pre = builder.nodes@;
                    proof {
                        lemma_views_push_concat(nodes0, WitNode::VariantValue(*case_idx, None));
                        lemma_enc_len(inner@, base + 1);
                        assert(node_views(pre)[base] == WitNodeView::VariantValue(
                            *case_idx,
                            None,
                        ));
                    }
                    builder.finish_child(child, idx);
                    proof {
                        assert(builder.reserved@ =~= res0);
                        assert(node_views(builder.nodes@) =~= node_views(nodes0) + enc(
                            value@,
                            base,
                        ));
                    }
                    idx
                },
                None => {
                    let idx = builder.add_variant_unit(*case_idx);
                    proof {
                        lemma_views_push_concat(nodes0, WitNode::VariantValue(*case_idx, None));
                    }
                    idx
                },
            }
        },
        Value::Enum(case_idx) => {
            let idx = builder.add_enum_value(*case_idx);
            proof {
                lemma_views_push_concat(nodes0, WitNode::EnumValue(*case_idx));
            }
            idx
        },
        Value::Flags(flags) => {
            let copied = copy_bools(flags);
            let idx = builder.add_flags(copied);
            proof {
                lemma_views_push_concat(nodes0, builder.nodes@.last());
            }
            idx
        },
        Value::Option(opt) => {
            match opt {
                Some(inner) => {
                    let idx = builder.add_option_some();
                    let child = encode_into(inner, builder);
                    let ghost pre = builder.nodes@;
                    proof {
                        lemma_views_push_concat(nodes0, WitNode::OptionValue(None));
                        lemma_enc_len(inner@, base + 1);
                        assert(node_views(pre)[base] == WitNodeView::OptionValue(None));
                    }
                    builder.finish_child(child, idx);
                    proof {
                        assert(builder.reserved@ =~= res0);
                        assert(node_views(builder.nodes@) =~= node_views(nodes0) + enc(
                            value@,
                            base,
                        ));
                    }
                    idx
                },
                None => {
                    let idx = builder.add_option_none();
                    proof {
                        lemma_views_push_concat(nodes0, WitNode::OptionValue(None));
                    }
                    idx
                },
            }
        },
        Value::Result(res) => {
            match res {
                Ok(Some(inner)) => {
                    let idx = builder.add_result_ok();
                    let child = encode_into(inner, builder);
                    let ghost pre = builder.nodes@;
                    proof {
                        lemma_views_push_concat(nodes0, WitNode::ResultValue(Ok(None)));
                        lemma_enc_len(inner@, base + 1);
                        assert(node_views(pre)[base] == WitNodeView::ResultValue(Ok(None)));
                    }
                    builder.finish_child(child, idx);
                    proof {
                        assert(builder.reserved@ =~= res0);
                        assert(node_views(builder.nodes@) =~= node_views(nodes0) + enc(
                            value@,
                            base,
                        ));
                    }
                    idx
                },
                Ok(None) => {
                    let idx = builder.add_result_ok_unit();
                    proof {
                        lemma_views_push_concat(nodes0, WitNode::ResultValue(Ok(None)));
                    }
                    idx
                },
                Err(Some(inner)) => {
                    let idx = builder.add_result_err();
                    let child = encode_into(inner, builder);
                    let ghost pre = builder.nodes@;
                    proof {
                        lemma_views_push_concat(nodes0, WitNode::ResultValue(Err(None)));
                        lemma_enc_len(inner@, base + 1);
                        assert(node_views(pre)[base] == WitNodeView::ResultValue(Err(None)));
                    }
                    builder.finish_child(child, idx);
                    proof {
                        assert(builder.reserved@ =~= res0);
                        assert(node_views(builder.nodes@) =~= node_views(nodes0) + enc(
                            value@,
                            base,
                        ));
                    }
                    idx
                },
                Err(None) => {
                    let idx = builder.add_result_err_unit();
                    proof {
                        lemma_views_push_concat(nodes0, WitNode::ResultValue(Err(None)));
                    }
                    idx
                },
            }
        },
    };
    proof {
        lemma_enc_len(value@, base);
    }
    idx
}

/// Encodes `value` into its flattened wire form, the root at position 0.
///
/// The wire form is exactly `enc(value@, 0)`: the root node of `value`'s own
/// kind first, followed by the subtrees of its children in order.
pub fn encode(value: &Value) -> (w: WitValue)
    requires
        node_count(value@) <= 0x7fff_ffff,
        value_depth(value@) <= MAX_NESTING_DEPTH,
    ensures
        w@ == enc(value@, 0),
        w@.len() == node_count(value@),
        w@.len() >= 1,
{
    let mut builder = WitValueBuilder::new();
    proof {
        lemma_node_count_pos(value@);
    }
    proof {
        assert(node_views(Seq::<WitNode>::empty()) =~= Seq::<WitNodeView>::empty());
    }
    encode_into(value, &mut builder);
    proof {
        assert(Seq::<WitNodeView>::empty() + enc(value@, 0) =~= enc(value@, 0));
    }
    builder.build()
}

} // verus!
