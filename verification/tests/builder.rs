use wasm_rpc::decode;
use wasm_rpc::Value;
use wasm_rpc::WitNode;
use wasm_rpc::WitValueBuilder;

#[test]
fn builder_reserve_and_finish() {
    let mut builder = WitValueBuilder::new();
    let list_idx = builder.add_list();
    let first = builder.add_u8(10);
    let second = builder.add_string("x".to_string());
    builder.finish_seq(vec![first, second], list_idx);
    let wit = builder.build();

    assert_eq!(list_idx, 0);
    assert_eq!(first, 1);
    assert_eq!(second, 2);
    assert_eq!(wit.nodes[0], WitNode::ListValue(vec![1, 2]));
    assert_eq!(
        decode(&wit),
        Ok(Value::List(vec![
            Value::U8(10),
            Value::String("x".to_string()),
        ]))
    );
}

#[test]
fn builder_single_child_containers() {
    let mut builder = WitValueBuilder::new();
    let variant_idx = builder.add_variant(4);
    let payload = builder.add_bool(false);
    builder.finish_child(payload, variant_idx);
    let wit = builder.build();

    assert_eq!(wit.nodes[0], WitNode::VariantValue(4, Some(1)));
    assert_eq!(
        decode(&wit),
        Ok(Value::Variant {
            case_idx: 4,
            case_value: Some(Box::new(Value::Bool(false))),
        })
    );
}

#[test]
fn builder_unit_nodes_need_no_finish() {
    let mut builder = WitValueBuilder::new();
    builder.add_result_ok_unit();
    let wit = builder.build();
    assert_eq!(wit.nodes, vec![WitNode::ResultValue(Ok(None))]);
    assert_eq!(decode(&wit), Ok(Value::Result(Ok(None))));
}

#[test]
fn builder_scalar_kinds() {
    let mut builder = WitValueBuilder::new();
    builder.add_enum_value(2);
    let wit = builder.build();
    assert_eq!(wit.nodes, vec![WitNode::EnumValue(2)]);
    assert_eq!(decode(&wit), Ok(Value::Enum(2)));
}
