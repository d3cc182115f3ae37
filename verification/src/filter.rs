//! Monitoring filters: the data-change filter, and how a request carries one.
//!
//! A request holds its filter as an extension object: a type identifier and an encoded
//! body. Only the binary encoding of the data-change filter is taken.

use vstd::prelude::*;
use crate::node_id::{NodeId, NodeIdView};
use crate::status::{StatusCode, BAD_DECODING_ERROR};

verus! {

/// The number, in namespace 0, of the binary encoding of a data-change filter.
pub const DATA_CHANGE_FILTER_ENCODING_DEFAULT_BINARY: u32 = 724;

/// The length in bytes of an encoded data-change filter.
pub const DATA_CHANGE_FILTER_LENGTH: usize = 16;

/// Which parts of a value count when it is looked at for a change.
#[derive(Clone, Copy, Debug, PartialEq, Eq, Structural)]
pub enum DataChangeTrigger {
    Status,
    StatusValue,
    StatusValueTimestamp,
}

/// A change filter with a deadband: how far a value may move and still count as the same.
#[derive(Clone, Copy, Debug, PartialEq, Eq, Structural)]
pub struct DataChangeFilter {
    pub trigger: DataChangeTrigger,
    /// The kind of deadband: 0 for none, 1 for absolute, 2 for percent.
    pub deadband_type: u32,
    /// The width of the deadband, as the bit pattern of a double-precision number.
    pub deadband_value: u64,
}

/// The filter of a monitored item, by kind.
#[derive(Clone, Copy, Debug, PartialEq, Eq, Structural)]
pub enum FilterType {
    DataChangeFilter(DataChangeFilter),
}

/// The encoded body of an extension object.
#[derive(Debug, PartialEq, Eq)]
pub enum ExtensionObjectEncoding {
    Empty,
    ByteString(Vec<u8>),
    XmlElement(String),
}

/// A value of some structured type, encoded, under the identifier of its encoding.
#[derive(Debug, PartialEq, Eq)]
pub struct ExtensionObject {
    pub node_id: NodeId,
    pub body: ExtensionObjectEncoding,
}

/// The unsigned 32-bit number whose little-endian bytes stand in `bytes` from `at` on.
pub open spec fn le_u32(bytes: Seq<u8>, at: int) -> int {
    bytes[at] + bytes[at + 1] * 0x100 + bytes[at + 2] * 0x1_0000 + bytes[at + 3] * 0x100_0000
}

/// The unsigned 64-bit number whose little-endian bytes stand in `bytes` from `at` on.
pub open spec fn le_u64(bytes: Seq<u8>, at: int) -> int {
    le_u32(bytes, at) + le_u32(bytes, at + 4) * 0x1_0000_0000
}

/// The trigger that `number` encodes, if it encodes one.
pub open spec fn trigger_of(number: int) -> Option<DataChangeTrigger> {
    if number == 0 {
        Some(DataChangeTrigger::Status)
    } else if number == 1 {
        Some(DataChangeTrigger::StatusValue)
    } else if number == 2 {
        Some(DataChangeTrigger::StatusValueTimestamp)
    } else {
        None
    }
}

/// The data-change filter that `bytes` encode, if they encode one.
///
/// The encoding is the trigger, the deadband type and the deadband value, each in
/// little-endian byte order, 4, 4 and 8 bytes long. Bytes after them are not looked at.
pub open spec fn decoded_data_change_filter(bytes: Seq<u8>) -> Option<DataChangeFilter> {
    if bytes.len() < DATA_CHANGE_FILTER_LENGTH {
        None
    } else {
        match trigger_of(le_u32(bytes, 0)) {
            Some(trigger) => Some(
                DataChangeFilter {
                    trigger,
                    deadband_type: le_u32(bytes, 4) as u32,
                    deadband_value: le_u64(bytes, 8) as u64,
                },
            ),
            None => None,
        }
    }
}

/// Whether `id` names the binary encoding of a data-change filter.
pub open spec fn is_data_change_filter_encoding(id: NodeIdView) -> bool {
    id == NodeIdView::numeric(0, DATA_CHANGE_FILTER_ENCODING_DEFAULT_BINARY)
}

/// Reads an unsigned 32-bit number from its little-endian bytes.
fn read_u32_le(bytes: &[u8], at: usize) -> (number: u32)
    requires
        at + 4 <= bytes.len(),
    ensures
        number == le_u32(bytes@, at as int),
{
    let b0: u32 = bytes[at] as u32;
    let b1: u32 = bytes[at + 1] as u32;
    let b2: u32 = bytes[at + 2] as u32;
    let b3: u32 = bytes[at + 3] as u32;
    b0 + b1 * 0x100 + b2 * 0x1_0000 + b3 * 0x100_0000
}

/// Reads an unsigned 64-bit number from its little-endian bytes.
fn read_u64_le(bytes: &[u8], at: usize) -> (number: u64)
    requires
        at + 8 <= bytes.len(),
    ensures
        number == le_u64(bytes@, at as int),
{
    let low: u64 = read_u32_le(bytes, at) as u64;
    let high: u64 = read_u32_le(bytes, at + 4) as u64;
    low + high * 0x1_0000_0000
}

impl DataChangeTrigger {
    /// The trigger that `number` encodes, if it encodes one.
    pub fn from_u32(number: u32) -> (trigger: Option<DataChangeTrigger>)
        ensures
            trigger == trigger_of(number as int),
    {
        if number == 0 {
            Some(DataChangeTrigger::Status)
        } else if number == 1 {
            Some(DataChangeTrigger::StatusValue)
        } else if number == 2 {
            Some(DataChangeTrigger::StatusValueTimestamp)
        } else {
            None
        }
    }
}

impl DataChangeFilter {
    /// Decodes a data-change filter from the start of `bytes`.
    ///
    /// Fails with `BadDecodingError` when `bytes` are too few or name no trigger.
    pub fn decode(bytes: &[u8]) -> (decoded: Result<DataChangeFilter, StatusCode>)
        ensures
            decoded is Ok <==> decoded_data_change_filter(bytes@) is Some,
            decoded matches Ok(filter) ==> decoded_data_change_filter(bytes@) == Some(filter),
            decoded matches Err(status) ==> status.bits == BAD_DECODING_ERROR,
    {
        if bytes.len() < DATA_CHANGE_FILTER_LENGTH {
            return Err(StatusCode { bits: BAD_DECODING_ERROR });
        }
        match DataChangeTrigger::from_u32(read_u32_le(bytes, 0)) {
            Some(trigger) => Ok(
                DataChangeFilter {
                    trigger,
                    deadband_type: read_u32_le(bytes, 4),
                    deadband_value: read_u64_le(bytes, 8),
                },
            ),
            None => Err(StatusCode { bits: BAD_DECODING_ERROR }),
        }
    }
}

impl ExtensionObject {
    /// The data-change filter that the body encodes, if it is a byte string that encodes one.
    pub open spec fn spec_decode_inner(&self) -> Option<DataChangeFilter> {
        match self.body {
            ExtensionObjectEncoding::ByteString(bytes) => decoded_data_change_filter(bytes@),
            _ => None,
        }
    }

    /// Whether the object's type identifier names the binary encoding of a data-change filter.
    pub fn is_data_change_filter(&self) -> (is_filter: bool)
        ensures
            is_filter == is_data_change_filter_encoding(self.node_id@),
    {
        let expected = NodeId::numeric(0, DATA_CHANGE_FILTER_ENCODING_DEFAULT_BINARY);
        self.node_id.same(&expected)
    }

    /// Decodes the body as a data-change filter, whatever the type identifier says.
    ///
    /// Fails with `BadDecodingError` unless the body is a byte string that encodes one.
    pub fn decode_inner(&self) -> (decoded: Result<DataChangeFilter, StatusCode>)
        ensures
            decoded is Ok <==> self.spec_decode_inner() is Some,
            decoded matches Ok(filter) ==> self.spec_decode_inner() == Some(filter),
            decoded matches Err(status) ==> status.bits == BAD_DECODING_ERROR,
    {
        match &self.body {
            ExtensionObjectEncoding::ByteString(bytes) => DataChangeFilter::decode(
                bytes.as_slice(),
            ),
            _ => Err(StatusCode { bits: BAD_DECODING_ERROR }),
        }
    }
}

} // verus!
