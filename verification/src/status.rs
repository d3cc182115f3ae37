//! Status codes: the quality of a value, or the reason a request was turned down.

use vstd::prelude::*;

verus! {

/// The operation succeeded; the value is good.
pub const GOOD: u32 = 0;

/// A payload could not be decoded.
pub const BAD_DECODING_ERROR: u32 = 0x8007_0000;

/// No node goes by the identifier.
pub const BAD_NODE_ID_UNKNOWN: u32 = 0x8034_0000;

/// The node does not have the attribute.
pub const BAD_ATTRIBUTE_ID_INVALID: u32 = 0x8035_0000;

/// The monitoring filter cannot be evaluated.
pub const BAD_MONITORED_ITEM_FILTER_INVALID: u32 = 0x8043_0000;

/// The monitoring filter of a request is of a kind that the item cannot use.
pub const BAD_FILTER_NOT_ALLOWED: u32 = 0x8045_0000;

/// A 32-bit status code; the top two bits give its severity.
#[derive(Clone, Copy, Debug, PartialEq, Eq, Structural)]
pub struct StatusCode {
    pub bits: u32,
}

} // verus!
