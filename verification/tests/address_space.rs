use opcua_monitoring::address_space::{AddressSpace, Node};
use opcua_monitoring::attribute::{AttributeId, ATTRIBUTE_COUNT};
use opcua_monitoring::data_value::DataValue;
use opcua_monitoring::instant::Instant;
use opcua_monitoring::node_id::{Identifier, NodeId};
use opcua_monitoring::status::{StatusCode, GOOD};
use opcua_monitoring::variant::Variant;

fn value(number: i32) -> DataValue {
    DataValue {
        value: Some(Variant::Int32(number)),
        status: StatusCode { bits: GOOD },
        source_timestamp: Instant { secs: 1, nanos: 2 },
        source_pico_seconds: 3,
        server_timestamp: Instant { secs: 4, nanos: 5 },
        server_pico_seconds: 6,
    }
}

#[test]
fn attribute_numbers_run_from_one_to_twenty_two() {
    assert_eq!(ATTRIBUTE_COUNT, 22);
    assert_eq!(AttributeId::from_u32(0), Err(()));
    assert_eq!(AttributeId::from_u32(23), Err(()));
    assert_eq!(AttributeId::from_u32(u32::MAX), Err(()));
    assert_eq!(AttributeId::from_u32(1), Ok(AttributeId::NodeId));
    assert_eq!(AttributeId::from_u32(13), Ok(AttributeId::Value));
    assert_eq!(AttributeId::from_u32(22), Ok(AttributeId::UserExecutable));
    for number in 1..=22u32 {
        let attribute = AttributeId::from_u32(number).unwrap();
        assert_eq!(attribute.number(), number);
    }
}

#[test]
fn node_ids_are_the_same_by_namespace_kind_and_content() {
    let numeric = NodeId::numeric(2, 10);
    assert!(numeric.same(&NodeId::numeric(2, 10)));
    assert!(!numeric.same(&NodeId::numeric(3, 10)));
    assert!(!numeric.same(&NodeId::numeric(2, 11)));
    let text = NodeId { namespace: 2, identifier: Identifier::String("10".to_string()) };
    assert!(text.same(&text.clone()));
    assert!(!text.same(&numeric));
    assert!(!text.same(&NodeId { namespace: 2, identifier: Identifier::String("11".to_string()) }));
    let bytes = NodeId { namespace: 2, identifier: Identifier::ByteString(vec![1, 2, 3]) };
    assert!(bytes.same(&bytes.clone()));
    assert!(!bytes.same(&NodeId { namespace: 2, identifier: Identifier::ByteString(vec![1, 2]) }));
    let other = NodeId { namespace: 2, identifier: Identifier::ByteString(vec![1, 2, 4]) };
    assert!(!bytes.same(&other));
    let guid = NodeId { namespace: 2, identifier: Identifier::Guid([7; 16]) };
    let mut other = [7u8; 16];
    assert!(guid.same(&NodeId { namespace: 2, identifier: Identifier::Guid(other) }));
    other[15] = 8;
    assert!(!guid.same(&NodeId { namespace: 2, identifier: Identifier::Guid(other) }));
    assert!(!guid.same(&NodeId { namespace: 2, identifier: Identifier::ByteString(vec![7; 16]) }));
}

#[test]
fn new_node_has_no_attribute_value() {
    let node = Node::new(NodeId::numeric(1, 5));
    assert!(node.node_id().same(&NodeId::numeric(1, 5)));
    for number in 1..=22u32 {
        assert_eq!(node.find_attribute(AttributeId::from_u32(number).unwrap()), None);
    }
}

#[test]
fn set_attribute_changes_that_attribute_only() {
    let mut node = Node::new(NodeId::numeric(1, 5));
    node.set_attribute(AttributeId::Value, Some(value(1)));
    node.set_attribute(AttributeId::NodeId, Some(value(2)));
    node.set_attribute(AttributeId::UserExecutable, Some(value(3)));
    assert_eq!(node.find_attribute(AttributeId::Value), Some(value(1)));
    assert_eq!(node.find_attribute(AttributeId::NodeId), Some(value(2)));
    assert_eq!(node.find_attribute(AttributeId::UserExecutable), Some(value(3)));
    assert_eq!(node.find_attribute(AttributeId::DataType), None);
    node.set_attribute(AttributeId::Value, None);
    assert_eq!(node.find_attribute(AttributeId::Value), None);
    assert_eq!(node.find_attribute(AttributeId::NodeId), Some(value(2)));
    assert!(node.node_id().same(&NodeId::numeric(1, 5)));
}

#[test]
fn address_space_finds_nodes_by_identifier() {
    let mut space = AddressSpace::new();
    assert!(space.find_node(&NodeId::numeric(1, 5)).is_none());
    let mut first = Node::new(NodeId::numeric(1, 5));
    first.set_attribute(AttributeId::Value, Some(value(1)));
    space.insert(first);
    let pump = NodeId { namespace: 1, identifier: Identifier::String("pump".to_string()) };
    let mut second = Node::new(pump.clone());
    second.set_attribute(AttributeId::Value, Some(value(2)));
    space.insert(second);
    let found = space.find_node(&NodeId::numeric(1, 5)).unwrap();
    assert_eq!(found.find_attribute(AttributeId::Value), Some(value(1)));
    let found = space.find_node(&pump).unwrap();
    assert_eq!(found.find_attribute(AttributeId::Value), Some(value(2)));
    assert!(space.find_node(&NodeId::numeric(1, 6)).is_none());
    assert!(space.find_node(&NodeId::numeric(2, 5)).is_none());
}

#[test]
fn insert_replaces_the_node_under_the_same_identifier() {
    let mut space = AddressSpace::new();
    let mut first = Node::new(NodeId::numeric(1, 5));
    first.set_attribute(AttributeId::Value, Some(value(1)));
    space.insert(first);
    let mut other = Node::new(NodeId::numeric(1, 6));
    other.set_attribute(AttributeId::Value, Some(value(6)));
    space.insert(other);
    let mut second = Node::new(NodeId::numeric(1, 5));
    second.set_attribute(AttributeId::DataType, Some(value(2)));
    space.insert(second);
    let found = space.find_node(&NodeId::numeric(1, 5)).unwrap();
    assert_eq!(found.find_attribute(AttributeId::Value), None);
    assert_eq!(found.find_attribute(AttributeId::DataType), Some(value(2)));
    let found = space.find_node(&NodeId::numeric(1, 6)).unwrap();
    assert_eq!(found.find_attribute(AttributeId::Value), Some(value(6)));
}
