//! CAN identifiers and how they sit in the identifier word of a frame.

use crate::sys::{CAN_EFF_FLAG, CAN_EFF_MASK, CAN_ERR_FLAG, CAN_RTR_FLAG, CAN_SFF_MASK};
use vstd::prelude::*;

verus! {

/// The identifier of a frame.
#[derive(Clone, Copy, Debug, PartialEq, Eq, Structural)]
pub enum Id {
    /// 11 bits identifier
    Standard(u32),
    /// 29 bits identifier
    Extended(u32),
}

impl Id {
    /// The value fits the width of its kind: 11 bits for a standard
    /// identifier, 29 bits for an extended one.
    pub open spec fn valid(self) -> bool {
        match self {
            Id::Standard(id) => id <= CAN_SFF_MASK,
            Id::Extended(id) => id <= CAN_EFF_MASK,
        }
    }

    /// The identifier that an identifier word names: the EFF flag selects
    /// the kind, and the bits above the kind's width are dropped.
    pub open spec fn spec_from_can_id(can_id: u32) -> Id {
        if can_id & CAN_EFF_FLAG == 0 {
            Id::Standard(can_id & CAN_SFF_MASK)
        } else {
            Id::Extended(can_id & CAN_EFF_MASK)
        }
    }

    /// The identifier word of an identifier: its value, with the EFF flag
    /// set for an extended one.
    pub open spec fn spec_into_can_id(self) -> u32 {
        match self {
            Id::Standard(id) => id,
            Id::Extended(id) => id | CAN_EFF_FLAG,
        }
    }

    /// Tells whether the value fits the width of its kind.
    pub fn is_valid(self) -> (b: bool)
        ensures
            b == self.valid(),
    {
        match self {
            Id::Standard(id) => id <= CAN_SFF_MASK,
            Id::Extended(id) => id <= CAN_EFF_MASK,
        }
    }

    /// A standard identifier, or nothing where `value` needs more than 11
    /// bits.
    pub fn standard(value: u32) -> (r: Option<Id>)
        ensures
            value < 0x800 ==> r == Some(Id::Standard(value)),
            value >= 0x800 ==> r.is_none(),
    {
        if value <= CAN_SFF_MASK {
            Some(Id::Standard(value))
        } else {
            None
        }
    }

    /// An extended identifier, or nothing where `value` needs more than 29
    /// bits.
    pub fn extended(value: u32) -> (r: Option<Id>)
        ensures
            value < 0x2000_0000 ==> r == Some(Id::Extended(value)),
            value >= 0x2000_0000 ==> r.is_none(),
    {
        if value <= CAN_EFF_MASK {
            Some(Id::Extended(value))
        } else {
            None
        }
    }

    /// Reads the identifier out of an identifier word.
    #[verifier::when_used_as_spec(spec_from_can_id)]
    pub fn from_can_id(can_id: u32) -> (id: Id)
        ensures
            id == Id::spec_from_can_id(can_id),
            id.valid(),
    {
        proof {
            lemma_masked_fits(can_id);
        }
        if can_id & CAN_EFF_FLAG == 0 {
            Id::Standard(can_id & CAN_SFF_MASK)
        } else {
            Id::Extended(can_id & CAN_EFF_MASK)
        }
    }

    /// Packs the identifier into an identifier word. The word carries
    /// neither the RTR nor the ERR flag, and reads back as the identifier.
    pub fn into_can_id(self) -> (can_id: u32)
        requires
            self.valid(),
        ensures
            can_id == self.spec_into_can_id(),
            Id::spec_from_can_id(can_id) == self,
            can_id & (CAN_RTR_FLAG | CAN_ERR_FLAG) == 0,
    {
        proof {
            lemma_id_round_trip(self);
        }
        match self {
            Id::Standard(id) => id,
            Id::Extended(id) => id | CAN_EFF_FLAG,
        }
    }
}

/// An identifier word masked to a width fits that width.
proof fn lemma_masked_fits(can_id: u32)
    by (bit_vector)
    ensures
        can_id & CAN_SFF_MASK <= CAN_SFF_MASK,
        can_id & CAN_EFF_MASK <= CAN_EFF_MASK,
{
}

pub(crate) proof fn lemma_standard_word(id: u32)
    by (bit_vector)
    requires
        id <= CAN_SFF_MASK,
    ensures
        id & CAN_EFF_FLAG == 0,
        id & CAN_SFF_MASK == id,
        id & (CAN_RTR_FLAG | CAN_ERR_FLAG) == 0,
{
}

pub(crate) proof fn lemma_extended_word(id: u32)
    by (bit_vector)
    requires
        id <= CAN_EFF_MASK,
    ensures
        (id | CAN_EFF_FLAG) & CAN_EFF_FLAG != 0,
        (id | CAN_EFF_FLAG) & CAN_EFF_MASK == id,
        (id | CAN_EFF_FLAG) & (CAN_RTR_FLAG | CAN_ERR_FLAG) == 0,
        (id | CAN_EFF_FLAG) == id + 0x8000_0000,
{
}

/// Packing a valid identifier and reading the word back gives the
/// identifier. The word of a standard identifier is its value, that of an
/// extended one its value plus 2^31, and neither carries the RTR or the ERR
/// flag.
pub proof fn lemma_id_round_trip(id: Id)
    requires
        id.valid(),
    ensures
        Id::spec_from_can_id(id.spec_into_can_id()) == id,
        id.spec_into_can_id() & (CAN_RTR_FLAG | CAN_ERR_FLAG) == 0,
        id matches Id::Standard(v) ==> id.spec_into_can_id() == v,
        id matches Id::Extended(v) ==> id.spec_into_can_id() == v + 0x8000_0000,
{
    match id {
        Id::Standard(v) => lemma_standard_word(v),
        Id::Extended(v) => lemma_extended_word(v),
    }
}

/// Every identifier word names a valid identifier.
pub proof fn lemma_from_can_id_valid(can_id: u32)
    ensures
        Id::spec_from_can_id(can_id).valid(),
{
    lemma_masked_fits(can_id);
}

} // verus!
