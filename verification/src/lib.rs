//! Monitored items of an OPC UA server.
//!
//! A monitored item watches one attribute of one node for a client. On every tick of its
//! subscription it decides whether it is time to look at the attribute, whether what it
//! finds is a change against what it last reported, and queues a notification if it is.
//! The queue is bounded; what happens when it is full is the client's choice.
//!
//! The functions of the library have contracts, and the contracts are proved. The
//! [`monitored_item`] module states what a tick does as a function from the item's state,
//! the value found and the change filter's answer to the next state, and proves what follows
//! from it. Two things are taken on trust, and each says so where it stands: that a second
//! handle on the elements of an array points to the same elements ([`variant`]), and the
//! declaration of the standard library's path type ([`crypto`]).
//!
//! The library does not read the clock: its caller says what time it is.
//!
//! The library has no floating-point arithmetic. A double-precision number is held by its
//! bits (see [`double`]), and the change filter, which compares numbers within a tolerance,
//! is handed to [`monitored_item::MonitoredItem::tick`] by the caller.

pub mod address_space;
pub mod attribute;
pub mod crypto;
pub mod data_value;
pub mod double;
pub mod error;
pub mod filter;
pub mod instant;
pub mod monitored_item;
pub mod node_id;
pub mod queue;
pub mod request;
pub mod status;
pub mod variant;
