//! Identifiers of nodes in the address space.

use vstd::prelude::*;

verus! {

/// The part of a node identifier that names the node within its namespace.
#[derive(Debug, PartialEq, Eq)]
pub enum Identifier {
    Numeric(u32),
    String(String),
    Guid([u8; 16]),
    ByteString(Vec<u8>),
}

/// What an [`Identifier`] denotes: its kind and its content.
pub enum IdentifierView {
    Numeric(u32),
    String(Seq<char>),
    Guid(Seq<u8>),
    ByteString(Seq<u8>),
}

impl View for Identifier {
    type V = IdentifierView;

    open spec fn view(&self) -> IdentifierView {
        match self {
            Identifier::Numeric(value) => IdentifierView::Numeric(*value),
            Identifier::String(text) => IdentifierView::String(text@),
            Identifier::Guid(bytes) => IdentifierView::Guid(bytes@),
            Identifier::ByteString(bytes) => IdentifierView::ByteString(bytes@),
        }
    }
}

/// Whether two byte strings hold the same bytes.
fn same_bytes(left: &[u8], right: &[u8]) -> (same: bool)
    ensures
        same == (left@ == right@),
{
    if left.len() != right.len() {
        return false;
    }
    let mut at: usize = 0;
    while at < left.len()
        invariant
            at <= left.len(),
            left.len() == right.len(),
            forall|i: int| 0 <= i < at ==> left@[i] == right@[i],
        decreases left.len() - at,
    {
        if left[at] != right[at] {
            return false;
        }
        at += 1;
    }
    assert(left@ =~= right@);
    true
}

impl Identifier {
    /// Whether `self` and `other` are of the same kind and content.
    pub fn same(&self, other: &Identifier) -> (same: bool)
        ensures
            same == (self@ == other@),
    {
        match (self, other) {
            (Identifier::Numeric(left), Identifier::Numeric(right)) => *left == *right,
            (Identifier::String(left), Identifier::String(right)) => *left == *right,
            (Identifier::Guid(left), Identifier::Guid(right)) => same_bytes(
                left.as_slice(),
                right.as_slice(),
            ),
            (Identifier::ByteString(left), Identifier::ByteString(right)) => same_bytes(
                left.as_slice(),
                right.as_slice(),
            ),
            _ => false,
        }
    }
}

impl Clone for Identifier {
    fn clone(&self) -> (copy: Self)
        ensures
            copy@ == self@,
    {
        match self {
            Identifier::Numeric(value) => Identifier::Numeric(*value),
            Identifier::String(text) => Identifier::String(text.clone()),
            Identifier::Guid(bytes) => Identifier::Guid(*bytes),
            Identifier::ByteString(bytes) => {
                let copy = bytes.clone();
                assert(copy@ =~= bytes@);
                Identifier::ByteString(copy)
            },
        }
    }
}

/// The identifier of a node: a namespace index and an identifier within that namespace.
#[derive(Debug, PartialEq, Eq)]
pub struct NodeId {
    pub namespace: u16,
    pub identifier: Identifier,
}

/// What a [`NodeId`] denotes.
pub struct NodeIdView {
    pub namespace: u16,
    pub identifier: IdentifierView,
}

impl NodeIdView {
    /// The node with the number `value` in the namespace `namespace`.
    pub open spec fn numeric(namespace: u16, value: u32) -> NodeIdView {
        NodeIdView { namespace, identifier: IdentifierView::Numeric(value) }
    }
}

impl View for NodeId {
    type V = NodeIdView;

    open spec fn view(&self) -> NodeIdView {
        NodeIdView { namespace: self.namespace, identifier: self.identifier@ }
    }
}

impl NodeId {
    /// The node with the number `value` in the namespace `namespace`.
    pub fn numeric(namespace: u16, value: u32) -> (id: NodeId)
        ensures
            id@ == NodeIdView::numeric(namespace, value),
    {
        NodeId { namespace, identifier: Identifier::Numeric(value) }
    }

    /// Whether `self` and `other` identify the same node.
    pub fn same(&self, other: &NodeId) -> (same: bool)
        ensures
            same == (self@ == other@),
    {
        self.namespace == other.namespace && self.identifier.same(&other.identifier)
    }
}

impl Clone for NodeId {
    fn clone(&self) -> (copy: Self)
        ensures
            copy@ == self@,
    {
        NodeId { namespace: self.namespace, identifier: self.identifier.clone() }
    }
}

} // verus!
