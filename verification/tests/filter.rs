use opcua_monitoring::filter::{
    DataChangeFilter, DataChangeTrigger, ExtensionObject, ExtensionObjectEncoding,
    DATA_CHANGE_FILTER_ENCODING_DEFAULT_BINARY,
};
use opcua_monitoring::node_id::{Identifier, NodeId};
use opcua_monitoring::status::{StatusCode, BAD_DECODING_ERROR};

fn encoded(trigger: u32, deadband_type: u32, deadband_value: f64) -> Vec<u8> {
    let mut bytes = Vec::new();
    bytes.extend_from_slice(&trigger.to_le_bytes());
    bytes.extend_from_slice(&deadband_type.to_le_bytes());
    bytes.extend_from_slice(&deadband_value.to_le_bytes());
    bytes
}

#[test]
fn decode_reads_little_endian_fields() {
    let bytes = [
        1, 0, 0, 0, 0x78, 0x56, 0x34, 0x12, 0x08, 0x07, 0x06, 0x05, 0x04, 0x03, 0x02, 0x01,
    ];
    assert_eq!(
        DataChangeFilter::decode(&bytes),
        Ok(DataChangeFilter {
            trigger: DataChangeTrigger::StatusValue,
            deadband_type: 0x1234_5678,
            deadband_value: 0x0102_0304_0506_0708,
        })
    );
}

#[test]
fn decode_keeps_the_bits_of_the_deadband_value() {
    let decoded = DataChangeFilter::decode(&encoded(2, 1, 2.5)).unwrap();
    assert_eq!(decoded.trigger, DataChangeTrigger::StatusValueTimestamp);
    assert_eq!(decoded.deadband_type, 1);
    assert_eq!(f64::from_bits(decoded.deadband_value), 2.5);
    let decoded = DataChangeFilter::decode(&encoded(0, u32::MAX, -0.0)).unwrap();
    assert_eq!(decoded.trigger, DataChangeTrigger::Status);
    assert_eq!(decoded.deadband_type, u32::MAX);
    assert_eq!(decoded.deadband_value, 0x8000_0000_0000_0000);
    let decoded = DataChangeFilter::decode(&[0xff; 16]);
    assert_eq!(decoded, Err(StatusCode { bits: BAD_DECODING_ERROR }));
}

#[test]
fn decode_ignores_bytes_after_the_filter() {
    let mut bytes = encoded(1, 2, 10.0);
    bytes.extend_from_slice(&[9, 9, 9]);
    let decoded = DataChangeFilter::decode(&bytes).unwrap();
    assert_eq!(decoded.trigger, DataChangeTrigger::StatusValue);
    assert_eq!(decoded.deadband_type, 2);
    assert_eq!(f64::from_bits(decoded.deadband_value), 10.0);
}

#[test]
fn decode_fails_on_short_input() {
    let bytes = encoded(1, 0, 0.0);
    for length in 0..16 {
        assert_eq!(
            DataChangeFilter::decode(&bytes[..length]),
            Err(StatusCode { bits: BAD_DECODING_ERROR })
        );
    }
    assert!(DataChangeFilter::decode(&bytes).is_ok());
}

#[test]
fn decode_fails_on_unknown_trigger() {
    assert_eq!(
        DataChangeFilter::decode(&encoded(3, 0, 0.0)),
        Err(StatusCode { bits: BAD_DECODING_ERROR })
    );
    assert_eq!(
        DataChangeFilter::decode(&encoded(0x0100_0000, 0, 0.0)),
        Err(StatusCode { bits: BAD_DECODING_ERROR })
    );
}

#[test]
fn trigger_numbers() {
    assert_eq!(DataChangeTrigger::from_u32(0), Some(DataChangeTrigger::Status));
    assert_eq!(DataChangeTrigger::from_u32(1), Some(DataChangeTrigger::StatusValue));
    assert_eq!(DataChangeTrigger::from_u32(2), Some(DataChangeTrigger::StatusValueTimestamp));
    assert_eq!(DataChangeTrigger::from_u32(3), None);
}

#[test]
fn extension_object_type_identifier() {
    assert_eq!(DATA_CHANGE_FILTER_ENCODING_DEFAULT_BINARY, 724);
    let body = || ExtensionObjectEncoding::ByteString(encoded(1, 0, 0.0));
    assert!(ExtensionObject { node_id: NodeId::numeric(0, 724), body: body() }
        .is_data_change_filter());
    assert!(!ExtensionObject { node_id: NodeId::numeric(1, 724), body: body() }
        .is_data_change_filter());
    assert!(!ExtensionObject { node_id: NodeId::numeric(0, 722), body: body() }
        .is_data_change_filter());
    assert!(!ExtensionObject {
        node_id: NodeId { namespace: 0, identifier: Identifier::String("724".to_string()) },
        body: body()
    }
    .is_data_change_filter());
}

#[test]
fn extension_object_decodes_byte_strings_only() {
    let object = ExtensionObject {
        node_id: NodeId::numeric(0, 724),
        body: ExtensionObjectEncoding::ByteString(encoded(1, 1, 0.5)),
    };
    let decoded = object.decode_inner().unwrap();
    assert_eq!(decoded.trigger, DataChangeTrigger::StatusValue);
    assert_eq!(decoded.deadband_type, 1);
    assert_eq!(f64::from_bits(decoded.deadband_value), 0.5);
    let empty =
        ExtensionObject { node_id: NodeId::numeric(0, 724), body: ExtensionObjectEncoding::Empty };
    assert_eq!(empty.decode_inner(), Err(StatusCode { bits: BAD_DECODING_ERROR }));
    let xml = ExtensionObject {
        node_id: NodeId::numeric(0, 724),
        body: ExtensionObjectEncoding::XmlElement("<DataChangeFilter/>".to_string()),
    };
    assert_eq!(xml.decode_inner(), Err(StatusCode { bits: BAD_DECODING_ERROR }));
    let short = ExtensionObject {
        node_id: NodeId::numeric(0, 724),
        body: ExtensionObjectEncoding::ByteString(vec![1, 0, 0, 0]),
    };
    assert_eq!(short.decode_inner(), Err(StatusCode { bits: BAD_DECODING_ERROR }));
}
