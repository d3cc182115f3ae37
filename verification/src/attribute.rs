//! The attributes a node can have, and the numbers by which clients name them.

use vstd::prelude::*;

verus! {

/// The number of attributes that have an identifier.
pub const ATTRIBUTE_COUNT: u32 = 22;

/// An attribute of a node.
#[derive(Clone, Copy, Debug, PartialEq, Eq, Structural)]
pub enum AttributeId {
    NodeId,
    NodeClass,
    BrowseName,
    DisplayName,
    Description,
    WriteMask,
    UserWriteMask,
    IsAbstract,
    Symmetric,
    InverseName,
    ContainsNoLoops,
    EventNotifier,
    Value,
    DataType,
    ValueRank,
    ArrayDimensions,
    AccessLevel,
    UserAccessLevel,
    MinimumSamplingInterval,
    Historizing,
    Executable,
    UserExecutable,
}

impl AttributeId {
    /// The number that names the attribute, from 1 to [`ATTRIBUTE_COUNT`].
    pub open spec fn spec_number(self) -> u32 {
        match self {
            AttributeId::NodeId => 1,
            AttributeId::NodeClass => 2,
            AttributeId::BrowseName => 3,
            AttributeId::DisplayName => 4,
            AttributeId::Description => 5,
            AttributeId::WriteMask => 6,
            AttributeId::UserWriteMask => 7,
            AttributeId::IsAbstract => 8,
            AttributeId::Symmetric => 9,
            AttributeId::InverseName => 10,
            AttributeId::ContainsNoLoops => 11,
            AttributeId::EventNotifier => 12,
            AttributeId::Value => 13,
            AttributeId::DataType => 14,
            AttributeId::ValueRank => 15,
            AttributeId::ArrayDimensions => 16,
            AttributeId::AccessLevel => 17,
            AttributeId::UserAccessLevel => 18,
            AttributeId::MinimumSamplingInterval => 19,
            AttributeId::Historizing => 20,
            AttributeId::Executable => 21,
            AttributeId::UserExecutable => 22,
        }
    }

    /// The attribute that `number` names, if it names one.
    pub open spec fn spec_from_u32(number: u32) -> Option<AttributeId> {
        if 1 <= number <= ATTRIBUTE_COUNT {
            Some(choose|id: AttributeId| id.spec_number() == number)
        } else {
            None
        }
    }

    /// Every attribute has a number from 1 to [`ATTRIBUTE_COUNT`], and no other attribute
    /// has the same.
    pub proof fn lemma_number_names_one(id: AttributeId)
        ensures
            1 <= id.spec_number() <= ATTRIBUTE_COUNT,
            AttributeId::spec_from_u32(id.spec_number()) == Some(id),
    {
        let named = choose|other: AttributeId| other.spec_number() == id.spec_number();
        assert(named.spec_number() == id.spec_number());
    }

    /// Every number from 1 to [`ATTRIBUTE_COUNT`] names an attribute, and no other number
    /// names one.
    pub proof fn lemma_every_number_is_taken(number: u32)
        ensures
            AttributeId::spec_from_u32(number) is Some <==> 1 <= number <= ATTRIBUTE_COUNT,
            AttributeId::spec_from_u32(number) matches Some(id) ==> id.spec_number() == number,
    {
        if 1 <= number <= ATTRIBUTE_COUNT {
            let witness = match number {
                1 => AttributeId::NodeId,
                2 => AttributeId::NodeClass,
                3 => AttributeId::BrowseName,
                4 => AttributeId::DisplayName,
                5 => AttributeId::Description,
                6 => AttributeId::WriteMask,
                7 => AttributeId::UserWriteMask,
                8 => AttributeId::IsAbstract,
                9 => AttributeId::Symmetric,
                10 => AttributeId::InverseName,
                11 => AttributeId::ContainsNoLoops,
                12 => AttributeId::EventNotifier,
                13 => AttributeId::Value,
                14 => AttributeId::DataType,
                15 => AttributeId::ValueRank,
                16 => AttributeId::ArrayDimensions,
                17 => AttributeId::AccessLevel,
                18 => AttributeId::UserAccessLevel,
                19 => AttributeId::MinimumSamplingInterval,
                20 => AttributeId::Historizing,
                21 => AttributeId::Executable,
                _ => AttributeId::UserExecutable,
            };
            assert(witness.spec_number() == number);
        }
    }

    /// The number that names the attribute.
    #[verifier::when_used_as_spec(spec_number)]
    pub fn number(self) -> (number: u32)
        ensures
            number == self.spec_number(),
            1 <= number <= ATTRIBUTE_COUNT,
    {
        match self {
            AttributeId::NodeId => 1,
            AttributeId::NodeClass => 2,
            AttributeId::BrowseName => 3,
            AttributeId::DisplayName => 4,
            AttributeId::Description => 5,
            AttributeId::WriteMask => 6,
            AttributeId::UserWriteMask => 7,
            AttributeId::IsAbstract => 8,
            AttributeId::Symmetric => 9,
            AttributeId::InverseName => 10,
            AttributeId::ContainsNoLoops => 11,
            AttributeId::EventNotifier => 12,
            AttributeId::Value => 13,
            AttributeId::DataType => 14,
            AttributeId::ValueRank => 15,
            AttributeId::ArrayDimensions => 16,
            AttributeId::AccessLevel => 17,
            AttributeId::UserAccessLevel => 18,
            AttributeId::MinimumSamplingInterval => 19,
            AttributeId::Historizing => 20,
            AttributeId::Executable => 21,
            AttributeId::UserExecutable => 22,
        }
    }

    /// The attribute that `number` names; an error if it names none.
    pub fn from_u32(number: u32) -> (named: Result<AttributeId, ()>)
        ensures
            named is Ok <==> 1 <= number <= ATTRIBUTE_COUNT,
            named matches Ok(id) ==> id.spec_number() == number,
            named.ok() == AttributeId::spec_from_u32(number),
    {
        let named = match number {
            1 => Ok(AttributeId::NodeId),
            2 => Ok(AttributeId::NodeClass),
            3 => Ok(AttributeId::BrowseName),
            4 => Ok(AttributeId::DisplayName),
            5 => Ok(AttributeId::Description),
            6 => Ok(AttributeId::WriteMask),
            7 => Ok(AttributeId::UserWriteMask),
            8 => Ok(AttributeId::IsAbstract),
            9 => Ok(AttributeId::Symmetric),
            10 => Ok(AttributeId::InverseName),
            11 => Ok(AttributeId::ContainsNoLoops),
            12 => Ok(AttributeId::EventNotifier),
            13 => Ok(AttributeId::Value),
            14 => Ok(AttributeId::DataType),
            15 => Ok(AttributeId::ValueRank),
            16 => Ok(AttributeId::ArrayDimensions),
            17 => Ok(AttributeId::AccessLevel),
            18 => Ok(AttributeId::UserAccessLevel),
            19 => Ok(AttributeId::MinimumSamplingInterval),
            20 => Ok(AttributeId::Historizing),
            21 => Ok(AttributeId::Executable),
            22 => Ok(AttributeId::UserExecutable),
            _ => Err(()),
        };
        proof {
            if let Ok(id) = named {
                AttributeId::lemma_number_names_one(id);
            }
        }
        named
    }
}

} // verus!
