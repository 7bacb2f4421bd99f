use wasm_rpc::decode;
use wasm_rpc::encode;
use wasm_rpc::DecodeError;
use wasm_rpc::Value;
use wasm_rpc::WitNode;
use wasm_rpc::WitValue;

fn record_sample() -> Value {
    Value::Record(vec![
        Value::U32(7),
        Value::String("hi".to_string()),
        Value::Option(Some(Box::new(Value::Bool(true)))),
    ])
}

#[test]
fn record_encoding_layout() {
    let wit = encode(&record_sample());
    assert_eq!(wit.nodes.len(), 5);
    assert_eq!(wit.nodes[0], WitNode::RecordValue(vec![1, 2, 3]));
    assert_eq!(wit.nodes[1], WitNode::PrimU32(7));
    assert_eq!(wit.nodes[2], WitNode::PrimString("hi".to_string()));
    assert_eq!(wit.nodes[3], WitNode::OptionValue(Some(4)));
    assert_eq!(wit.nodes[4], WitNode::PrimBool(true));
}

#[test]
fn record_round_trip() {
    let wit = encode(&record_sample());
    assert_eq!(decode(&wit), Ok(record_sample()));
}

#[test]
fn unit_err_single_node() {
    let wit = encode(&Value::Result(Err(None)));
    assert_eq!(wit.nodes.len(), 1);
    assert_eq!(wit.nodes[0], WitNode::ResultValue(Err(None)));
    assert_eq!(decode(&wit), Ok(Value::Result(Err(None))));
}

#[test]
fn unit_arms_stay_distinct() {
    let absent = encode(&Value::Option(None));
    assert_eq!(decode(&absent), Ok(Value::Option(None)));

    let present = encode(&Value::Option(Some(Box::new(Value::U8(0)))));
    assert_eq!(decode(&present), Ok(Value::Option(Some(Box::new(Value::U8(0))))));

    let unit_ok = encode(&Value::Result(Ok(None)));
    assert_eq!(decode(&unit_ok), Ok(Value::Result(Ok(None))));

    let carried_ok = encode(&Value::Result(Ok(Some(Box::new(Value::U8(0))))));
    assert_eq!(
        decode(&carried_ok),
        Ok(Value::Result(Ok(Some(Box::new(Value::U8(0))))))
    );
}

fn scalar_boundaries() -> Vec<Value> {
    vec![
        Value::Bool(false),
        Value::Bool(true),
        Value::U8(u8::MAX),
        Value::U16(u16::MAX),
        Value::U32(u32::MAX),
        Value::U64(u64::MAX),
        Value::U64(0),
        Value::S8(i8::MIN),
        Value::S16(i16::MIN),
        Value::S32(i32::MIN),
        Value::S64(i64::MIN),
        Value::S64(i64::MAX),
        Value::Char('\u{0}'),
        Value::Char('\u{1F600}'),
        Value::String(String::new()),
        Value::String("\u{00e9}\u{6f22}\u{5b57}".to_string()),
    ]
}

#[test]
fn scalar_boundary_round_trips() {
    for value in scalar_boundaries() {
        let wit = encode(&value);
        assert_eq!(wit.nodes.len(), 1);
        assert_eq!(decode(&wit), Ok(value));
    }
}

#[test]
fn float_bit_patterns_survive() {
    let patterns32: Vec<u32> = vec![
        0,
        0x8000_0000,
        0x7f80_0000,
        0xff80_0000,
        0x7fc0_0000,
        0x0000_0001,
        0x7f7f_ffff,
        1.5f32.to_bits(),
    ];
    for bits in patterns32 {
        let wit = encode(&Value::F32(bits));
        assert_eq!(decode(&wit), Ok(Value::F32(bits)));
    }
    let patterns64: Vec<u64> = vec![
        0,
        0x8000_0000_0000_0000,
        0x7ff0_0000_0000_0000,
        0x7ff8_0000_0000_0000,
        0x0000_0000_0000_0001,
        (-2.5f64).to_bits(),
    ];
    for bits in patterns64 {
        let wit = encode(&Value::F64(bits));
        assert_eq!(decode(&wit), Ok(Value::F64(bits)));
    }
}

#[test]
fn empty_containers_round_trip() {
    for value in [
        Value::List(vec![]),
        Value::Tuple(vec![]),
        Value::Record(vec![]),
        Value::Flags(vec![]),
    ] {
        let wit = encode(&value);
        assert_eq!(wit.nodes.len(), 1);
        let expected = match &value {
            Value::List(_) => Value::List(vec![]),
            Value::Tuple(_) => Value::Tuple(vec![]),
            Value::Record(_) => Value::Record(vec![]),
            _ => Value::Flags(vec![]),
        };
        assert_eq!(decode(&wit), Ok(expected));
    }
}

#[test]
fn flags_round_trip() {
    for flags in [vec![true, true, true], vec![false, false], vec![true, false, true]] {
        let wit = encode(&Value::Flags(flags.clone()));
        assert_eq!(wit.nodes.len(), 1);
        assert_eq!(decode(&wit), Ok(Value::Flags(flags)));
    }
}

fn nested_sample() -> Value {
    Value::Variant {
        case_idx: 3,
        case_value: Some(Box::new(Value::Tuple(vec![
            Value::List(vec![
                Value::Enum(0),
                Value::Enum(9),
            ]),
            Value::Result(Err(Some(Box::new(Value::Option(None))))),
            Value::Variant { case_idx: 7, case_value: None },
        ]))),
    }
}

#[test]
fn nested_round_trip() {
    let wit = encode(&nested_sample());
    assert_eq!(decode(&wit), Ok(nested_sample()));
}

#[test]
fn nested_root_is_variant() {
    let wit = encode(&nested_sample());
    assert!(matches!(wit.nodes[0], WitNode::VariantValue(3, Some(1))));
}

#[test]
fn forward_references_in_encoding() {
    let wit = encode(&nested_sample());
    for (i, node) in wit.nodes.iter().enumerate() {
        let children: Vec<i32> = match node {
            WitNode::RecordValue(c) | WitNode::TupleValue(c) | WitNode::ListValue(c) => c.clone(),
            WitNode::VariantValue(_, Some(c)) => vec![*c],
            WitNode::OptionValue(Some(c)) => vec![*c],
            WitNode::ResultValue(Ok(Some(c))) => vec![*c],
            WitNode::ResultValue(Err(Some(c))) => vec![*c],
            _ => vec![],
        };
        for c in children {
            assert!((c as usize) > i);
            assert!((c as usize) < wit.nodes.len());
        }
    }
}

#[test]
fn deep_nesting_round_trip() {
    let mut value = Value::U8(1);
    for _ in 0..200 {
        value = Value::Option(Some(Box::new(value)));
    }
    let mut expected = Value::U8(1);
    for _ in 0..200 {
        expected = Value::Option(Some(Box::new(expected)));
    }
    let wit = encode(&value);
    assert_eq!(wit.nodes.len(), 201);
    assert_eq!(decode(&wit), Ok(expected));
}

#[test]
fn decode_rejects_empty_sequence() {
    let wit = WitValue { nodes: vec![] };
    assert_eq!(decode(&wit), Err(DecodeError::EmptyNodes));
}

#[test]
fn decode_rejects_out_of_range_index() {
    let wit = WitValue {
        nodes: vec![WitNode::OptionValue(Some(5))],
    };
    assert_eq!(
        decode(&wit),
        Err(DecodeError::IndexOutOfRange { node: 0, index: 5 })
    );
}

#[test]
fn decode_rejects_negative_index() {
    let wit = WitValue {
        nodes: vec![WitNode::ListValue(vec![-1])],
    };
    assert_eq!(
        decode(&wit),
        Err(DecodeError::IndexOutOfRange { node: 0, index: -1 })
    );
}

#[test]
fn decode_rejects_self_reference() {
    let wit = WitValue {
        nodes: vec![WitNode::ListValue(vec![0])],
    };
    assert_eq!(
        decode(&wit),
        Err(DecodeError::NonForwardIndex { node: 0, index: 0 })
    );
}

#[test]
fn decode_rejects_backward_reference() {
    let wit = WitValue {
        nodes: vec![
            WitNode::OptionValue(Some(1)),
            WitNode::OptionValue(Some(0)),
        ],
    };
    assert_eq!(
        decode(&wit),
        Err(DecodeError::NonForwardIndex { node: 1, index: 0 })
    );
}

#[test]
fn decode_handcrafted_sequence() {
    let wit = WitValue {
        nodes: vec![
            WitNode::RecordValue(vec![1, 2, 3]),
            WitNode::PrimU32(7),
            WitNode::PrimString("hi".to_string()),
            WitNode::OptionValue(Some(4)),
            WitNode::PrimBool(true),
        ],
    };
    assert_eq!(decode(&wit), Ok(record_sample()));
}

#[test]
fn decode_rejects_excessive_depth() {
    let n: usize = 5000;
    let mut nodes: Vec<WitNode> = Vec::new();
    for i in 0..n {
        nodes.push(WitNode::OptionValue(Some((i + 1) as i32)));
    }
    nodes.push(WitNode::PrimU8(1));
    let wit = WitValue { nodes };
    assert_eq!(
        decode(&wit),
        Err(DecodeError::DepthLimitExceeded { node: 4096 })
    );
}

#[test]
fn decode_depth_under_limit_succeeds() {
    let n: usize = 1000;
    let mut nodes: Vec<WitNode> = Vec::new();
    for i in 0..n {
        nodes.push(WitNode::OptionValue(Some((i + 1) as i32)));
    }
    nodes.push(WitNode::PrimU8(1));
    let wit = WitValue { nodes };
    let mut expected = Value::U8(1);
    for _ in 0..n {
        expected = Value::Option(Some(Box::new(expected)));
    }
    assert_eq!(decode(&wit), Ok(expected));
}
