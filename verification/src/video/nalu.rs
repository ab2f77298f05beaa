//! The header byte of an H.264 NAL unit.
use vstd::prelude::*;

verus! {

/// The NRI field of a NAL unit header (bits 5 and 6).
#[derive(Debug, Clone, Copy, PartialEq, Eq)]
pub enum NriPriority {
    Lowest,
    Low,
    High,
    Highest,
}

impl NriPriority {
    /// The variant's position in declaration order.
    pub open spec fn spec_rank(self) -> u8 {
        match self {
            NriPriority::Lowest => 0,
            NriPriority::Low => 1,
            NriPriority::High => 2,
            NriPriority::Highest => 3,
        }
    }

    pub fn rank(&self) -> (r: u8)
        ensures
            r == self.spec_rank(),
    {
        match self {
            NriPriority::Lowest => 0,
            NriPriority::Low => 1,
            NriPriority::High => 2,
            NriPriority::Highest => 3,
        }
    }
}

/// The NRI a header byte carries.
pub open spec fn spec_nri(b: u8) -> NriPriority {
    let selection = b & 0x60;
    if selection == 0x60 {
        NriPriority::Highest
    } else if selection == 0x40 {
        NriPriority::High
    } else if selection == 0x20 {
        NriPriority::Low
    } else {
        NriPriority::Lowest
    }
}

/// The NAL unit type a header byte carries (its low five bits).
pub open spec fn spec_unit_type(b: u8) -> u8 {
    b & 0x1f
}

/// Unit types whose NRI must be zero.
pub open spec fn nri_must_be_zero(unit_type: u8) -> bool {
    unit_type == 6 || (unit_type >= 9 && unit_type <= 12)
}

/// The test `is_forbidden` makes of a header byte: its bit 7 is clear, or its
/// unit type requires a zero NRI and the byte equals its NRI's rank.
pub open spec fn spec_is_forbidden(b: u8) -> bool {
    (b & 0x80 == 0) || (nri_must_be_zero(spec_unit_type(b)) && b == spec_nri(b).spec_rank())
}

/// Reading a NAL unit header.
pub trait Nal {
    fn is_forbidden(&self) -> bool;

    fn nri(&self) -> NriPriority;

    /// The unit type; this will change to an enum once it is better
    /// understood.
    fn unit_type(&self) -> u8;
}

impl Nal for u8 {
    fn is_forbidden(&self) -> (r: bool)
        ensures
            r == spec_is_forbidden(*self),
    {
        let unit_type = self.unit_type();
        let nri_zero = unit_type == 6 || (unit_type >= 9 && unit_type <= 12);
        (*self & 0x80 == 0) || (nri_zero && *self == self.nri().rank())
    }

    fn nri(&self) -> (r: NriPriority)
        ensures
            r == spec_nri(*self),
    {
        let selection = *self & 0x60;
        if selection == 0x60 {
            NriPriority::Highest
        } else if selection == 0x40 {
            NriPriority::High
        } else if selection == 0x20 {
            NriPriority::Low
        } else {
            NriPriority::Lowest
        }
    }

    fn unit_type(&self) -> (r: u8)
        ensures
            r == spec_unit_type(*self),
    {
        *self & 0x1f
    }
}

/// A header byte is forbidden exactly when its bit 7 is clear (a byte with
/// bit 7 set is at least 128 and never equals an NRI rank), and its unit
/// type is below 32.
pub proof fn lemma_nal_header_fields(b: u8)
    ensures
        spec_is_forbidden(b) <==> b < 128,
        spec_unit_type(b) < 32,
{
    assert((b & 0x80 == 0) <==> b < 128) by (bit_vector);
    assert(b & 0x1f < 32) by (bit_vector);
}

} // verus!
