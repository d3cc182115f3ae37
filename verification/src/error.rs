//! What can keep a monitored item from being made, from reading or from comparing.

use vstd::prelude::*;
use crate::status::{
    StatusCode, BAD_ATTRIBUTE_ID_INVALID, BAD_FILTER_NOT_ALLOWED,
    BAD_MONITORED_ITEM_FILTER_INVALID, BAD_NODE_ID_UNKNOWN,
};

verus! {

/// The failures a monitored item tells apart.
#[derive(Clone, Copy, Debug, PartialEq, Eq, Structural)]
pub enum MonitoredItemError {
    /// The filter of a request is of a kind that the item cannot use.
    FilterNotAllowed,
    /// The address space holds no node under the identifier.
    NodeNotFound,
    /// The node has no value for the attribute.
    AttributeNotFound,
    /// The number names no attribute.
    InvalidAttributeId,
    /// The change filter could not say whether two values are the same.
    FilterEvaluationFailed,
}

impl MonitoredItemError {
    /// The bits of the status code that reports the failure.
    pub open spec fn spec_status_bits(self) -> u32 {
        match self {
            MonitoredItemError::FilterNotAllowed => BAD_FILTER_NOT_ALLOWED,
            MonitoredItemError::NodeNotFound => BAD_NODE_ID_UNKNOWN,
            MonitoredItemError::AttributeNotFound => BAD_ATTRIBUTE_ID_INVALID,
            MonitoredItemError::InvalidAttributeId => BAD_ATTRIBUTE_ID_INVALID,
            MonitoredItemError::FilterEvaluationFailed => BAD_MONITORED_ITEM_FILTER_INVALID,
        }
    }

    /// The status code that reports the failure.
    pub fn status_code(self) -> (status: StatusCode)
        ensures
            status.bits == self.spec_status_bits(),
    {
        let bits: u32 = match self {
            MonitoredItemError::FilterNotAllowed => BAD_FILTER_NOT_ALLOWED,
            MonitoredItemError::NodeNotFound => BAD_NODE_ID_UNKNOWN,
            MonitoredItemError::AttributeNotFound => BAD_ATTRIBUTE_ID_INVALID,
            MonitoredItemError::InvalidAttributeId => BAD_ATTRIBUTE_ID_INVALID,
            MonitoredItemError::FilterEvaluationFailed => BAD_MONITORED_ITEM_FILTER_INVALID,
        };
        StatusCode { bits }
    }
}

} // verus!
