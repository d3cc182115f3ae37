//! Snapshots of attribute values, and the notifications that carry them.

use vstd::prelude::*;
use crate::instant::Instant;
use crate::status::StatusCode;
use crate::variant::Variant;

verus! {

/// A snapshot of an attribute: the value, if there is one, its quality, and when the
/// source and the server saw it.
#[derive(Debug, PartialEq, Eq)]
pub struct DataValue {
    /// The value; its absence is a state of its own.
    pub value: Option<Variant>,
    pub status: StatusCode,
    pub source_timestamp: Instant,
    pub source_pico_seconds: i16,
    pub server_timestamp: Instant,
    pub server_pico_seconds: i16,
}

impl Clone for DataValue {
    fn clone(&self) -> (copy: Self)
        ensures
            copy == *self,
    {
        let value = match &self.value {
            Some(v) => Some(v.clone()),
            None => None,
        };
        DataValue {
            value,
            status: self.status,
            source_timestamp: self.source_timestamp,
            source_pico_seconds: self.source_pico_seconds,
            server_timestamp: self.server_timestamp,
            server_pico_seconds: self.server_pico_seconds,
        }
    }
}

/// A sampled value on its way to the client, under the handle the client chose for the item.
#[derive(Debug, PartialEq, Eq)]
pub struct MonitoredItemNotification {
    pub client_handle: u32,
    pub value: DataValue,
}

impl Clone for MonitoredItemNotification {
    fn clone(&self) -> (copy: Self)
        ensures
            copy == *self,
    {
        MonitoredItemNotification { client_handle: self.client_handle, value: self.value.clone() }
    }
}

} // verus!
