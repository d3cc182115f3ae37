//! The storage view that monitored items read: nodes by identifier, values by attribute.

use vstd::prelude::*;
use crate::attribute::{AttributeId, ATTRIBUTE_COUNT};
use crate::data_value::DataValue;
use crate::node_id::{NodeId, NodeIdView};

verus! {

/// A node: its identifier and, for each attribute, the value it has or none.
#[derive(Debug)]
pub struct Node {
    node_id: NodeId,
    /// The values by attribute number less one; attributes beyond the end have none.
    attributes: Vec<Option<DataValue>>,
}

impl Node {
    /// What the node's identifier denotes.
    pub closed spec fn spec_node_id(&self) -> NodeIdView {
        self.node_id@
    }

    /// The value of the attribute `id`, if the node has one.
    pub closed spec fn attribute(&self, id: AttributeId) -> Option<DataValue> {
        if id.spec_number() <= self.attributes@.len() {
            self.attributes@[id.spec_number() - 1]
        } else {
            None
        }
    }

    /// A node without any attribute value.
    pub fn new(node_id: NodeId) -> (node: Node)
        ensures
            node.spec_node_id() == node_id@,
            forall|id: AttributeId| node.attribute(id) is None,
    {
        Node { node_id, attributes: Vec::new() }
    }

    /// The node's identifier.
    pub fn node_id(&self) -> (id: &NodeId)
        ensures
            id@ == self.spec_node_id(),
    {
        &self.node_id
    }

    /// Gives the attribute `id` the value `value`, or takes its value away.
    pub fn set_attribute(&mut self, id: AttributeId, value: Option<DataValue>)
        ensures
            final(self).spec_node_id() == old(self).spec_node_id(),
            final(self).attribute(id) == value,
            forall|other: AttributeId|
                other != id ==> final(self).attribute(other) == old(self).attribute(other),
    {
        let slot: usize = (id.number() - 1) as usize;
        while self.attributes.len() <= slot
            invariant
                slot < ATTRIBUTE_COUNT,
                self.node_id == old(self).node_id,
                old(self).attributes@.len() <= self.attributes@.len(),
                forall|i: int|
                    0 <= i < old(self).attributes@.len() ==> self.attributes@[i] == old(
                        self,
                    ).attributes@[i],
                forall|i: int|
                    old(self).attributes@.len() <= i < self.attributes@.len()
                        ==> self.attributes@[i] is None,
            decreases ATTRIBUTE_COUNT - self.attributes@.len(),
        {
            self.attributes.push(None);
        }
        self.attributes.set(slot, value);
        assert forall|other: AttributeId| other != id implies self.attribute(other) == old(
            self,
        ).attribute(other) by {
            AttributeId::lemma_number_names_one(other);
            AttributeId::lemma_number_names_one(id);
        }
    }

    /// The value of the attribute `id`, if the node has one.
    pub fn find_attribute(&self, id: AttributeId) -> (found: Option<DataValue>)
        ensures
            found == self.attribute(id),
    {
        let slot: usize = (id.number() - 1) as usize;
        if slot < self.attributes.len() {
            match &self.attributes[slot] {
                Some(value) => Some(value.clone()),
                None => None,
            }
        } else {
            None
        }
    }
}

/// The nodes of a server, each under its own identifier.
#[derive(Debug)]
pub struct AddressSpace {
    nodes: Vec<Node>,
}

impl View for AddressSpace {
    type V = Map<NodeIdView, Node>;

    /// The nodes by what their identifiers denote.
    closed spec fn view(&self) -> Map<NodeIdView, Node> {
        Map::new(
            |id: NodeIdView| self.holds(id),
            |id: NodeIdView| self.nodes@[self.place_of(id)],
        )
    }
}

impl AddressSpace {
    #[verifier::type_invariant]
    spec fn one_node_per_id(&self) -> bool {
        forall|i: int, j: int|
            0 <= i < j < self.nodes@.len() ==> self.nodes@[i].spec_node_id()
                != self.nodes@[j].spec_node_id()
    }

    spec fn holds(&self, id: NodeIdView) -> bool {
        exists|i: int| 0 <= i < self.nodes@.len() && self.nodes@[i].spec_node_id() == id
    }

    spec fn place_of(&self, id: NodeIdView) -> int {
        choose|i: int| 0 <= i < self.nodes@.len() && self.nodes@[i].spec_node_id() == id
    }

    /// Every node is held under what its own identifier denotes.
    pub proof fn lemma_held_under_own_id(&self, id: NodeIdView)
        requires
            self@.contains_key(id),
        ensures
            self@[id].spec_node_id() == id,
    {
    }

    /// An address space without nodes.
    pub fn new() -> (space: AddressSpace)
        ensures
            space@ == Map::<NodeIdView, Node>::empty(),
    {
        let space = AddressSpace { nodes: Vec::new() };
        assert(space@ =~= Map::<NodeIdView, Node>::empty());
        space
    }

    /// The place of the node that `id` identifies, or the number of nodes if there is none.
    fn position(&self, id: &NodeId) -> (at: usize)
        ensures
            at <= self.nodes@.len(),
            at < self.nodes@.len() ==> self.nodes@[at as int].spec_node_id() == id@,
            at == self.nodes@.len() ==> !self.holds(id@),
            at < self.nodes@.len() ==> self.holds(id@) && self.place_of(id@) == at,
    {
        proof {
            use_type_invariant(self);
        }
        let mut at: usize = 0;
        while at < self.nodes.len()
            invariant
                at <= self.nodes@.len(),
                forall|i: int| 0 <= i < at ==> self.nodes@[i].spec_node_id() != id@,
            decreases self.nodes@.len() - at,
        {
            if self.nodes[at].node_id().same(id) {
                proof {
                    use_type_invariant(self);
                    assert(self.nodes@[at as int].spec_node_id() == id@);
                }
                return at;
            }
            at += 1;
        }
        at
    }

    /// Puts `node` under its identifier, in place of a node that was there before.
    pub fn insert(&mut self, node: Node)
        ensures
            final(self)@ == old(self)@.insert(node.spec_node_id(), node),
    {
        proof {
            use_type_invariant(&*self);
        }
        let at = self.position(node.node_id());
        let mut nodes: Vec<Node> = Vec::new();
        std::mem::swap(&mut self.nodes, &mut nodes);
        if at < nodes.len() {
            nodes.set(at, node);
        } else {
            nodes.push(node);
        }
        std::mem::swap(&mut self.nodes, &mut nodes);
        proof {
            let before = old(self).nodes@;
            let after = self.nodes@;
            let key = node.spec_node_id();
            assert(after[at as int] == node);
            assert forall|id: NodeIdView| self.holds(id) <==> (id == key || old(self).holds(
                id,
            )) by {
                if old(self).holds(id) && id != key {
                    let i = old(self).place_of(id);
                    assert(after[i] == before[i]);
                }
                if id == key {
                    assert(after[at as int].spec_node_id() == id);
                }
            }
            assert forall|id: NodeIdView| self.holds(id) implies self@[id] == (if id == key {
                node
            } else {
                old(self)@[id]
            }) by {
                let i = self.place_of(id);
                if id == key {
                    assert(i == at);
                } else {
                    assert(after[i] == before[i]);
                    assert(old(self).place_of(id) == i);
                }
            }
            assert(self@ =~= old(self)@.insert(key, node));
        }
    }

    /// The node that `id` identifies, if the address space holds it.
    pub fn find_node(&self, id: &NodeId) -> (found: Option<&Node>)
        ensures
            found is Some <==> self@.contains_key(id@),
            found matches Some(node) ==> *node == self@[id@] && node.spec_node_id() == id@,
    {
        let at = self.position(id);
        if at < self.nodes.len() {
            Some(&self.nodes[at])
        } else {
            None
        }
    }
}

} // verus!
