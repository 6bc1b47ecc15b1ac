//! The extensible enumeration for the "primary provider" indication: a small
//! closed vocabulary, a reserved sub-range that never constructs, and an open
//! user-defined sub-range carried as a distinguished variant.
//!
//! Partition of the possible codes: 0, 1 and 2 name the three known providers;
//! 3 to 64 are reserved and always rejected; 65 to 191 construct as the
//! user-defined variant carrying the code; 192 to 255 are rejected.

use vstd::prelude::*;
use vstd::string::StringExecFns;

use crate::render::spec_udec;
use crate::render::udec_string;
use crate::OutOfRange;

verus! {

/// Which provider is "primary" for a device.
#[derive(Clone, Copy, Debug, PartialEq, Eq, Structural)]
pub enum PrimacyType {
    /// In-home energy management system (code 0).
    HEMS,
    /// Contracted premises service provider (code 1).
    CPSP,
    /// Non-contractual service provider (code 2).
    NCSP,
    /// A user-defined provider, carrying its code (65 to 191).
    User(u8),
}

/// The codes that construct successfully: the three named providers and the
/// user-defined sub-range; the reserved codes 3 to 64 and everything above
/// 191 are excluded.
pub open spec fn spec_valid_primacy_code(value: u8) -> bool {
    value <= 2 || (65 <= value && value <= 191)
}

impl PrimacyType {
    /// The numeric code of this value.
    pub open spec fn spec_code(self) -> u8 {
        match self {
            PrimacyType::HEMS => 0,
            PrimacyType::CPSP => 1,
            PrimacyType::NCSP => 2,
            PrimacyType::User(value) => value,
        }
    }

    /// The value a legal code constructs.
    pub open spec fn spec_of_code(value: u8) -> PrimacyType {
        if value == 0 {
            PrimacyType::HEMS
        } else if value == 1 {
            PrimacyType::CPSP
        } else if value == 2 {
            PrimacyType::NCSP
        } else {
            PrimacyType::User(value)
        }
    }

    /// Validity: a user-defined value only carries a code of the user-defined
    /// sub-range, so every value's code is legal and names it alone. `new`
    /// establishes this for every value it returns.
    pub open spec fn wf(self) -> bool {
        match self {
            PrimacyType::User(value) => 65 <= value && value <= 191,
            _ => true,
        }
    }

    /// Sole constructor: succeeds exactly on the codes outside the reserved
    /// range 3 to 64 and below 192, and returns the variant of the code.
    pub fn new(value: u8) -> (r: Result<PrimacyType, OutOfRange>)
        ensures
            r is Ok <==> spec_valid_primacy_code(value),
            r matches Ok(p) ==> p == Self::spec_of_code(value) && p.wf(),
    {
        if (value > 2 && value < 65) || value > 191 {
            Err(OutOfRange)
        } else {
            match value {
                0 => Ok(PrimacyType::HEMS),
                1 => Ok(PrimacyType::CPSP),
                2 => Ok(PrimacyType::NCSP),
                _ => Ok(PrimacyType::User(value)),
            }
        }
    }

    /// Numeric round-trip: returns the exact code this value was constructed
    /// from, for every variant including the user-defined one.
    pub fn get_num_value(&self) -> (r: u8)
        ensures
            r == self.spec_code(),
    {
        match self {
            PrimacyType::HEMS => 0,
            PrimacyType::CPSP => 1,
            PrimacyType::NCSP => 2,
            PrimacyType::User(value) => *value,
        }
    }

    /// The human-readable description of this value: fixed text for the three
    /// named providers, "User-defined: " and the code for the open variant.
    pub fn format_meaning(&self) -> (s: String)
        ensures
            *self is HEMS ==> s@ == "In-home energy management system: 0"@,
            *self is CPSP ==> s@ == "Contracted premises service provider: 1"@,
            *self is NCSP ==> s@ == "Non-contractual service provider: 2"@,
            *self matches PrimacyType::User(value) ==> s@ == "User-defined: "@ + spec_udec(
                value as nat,
            ),
    {
        match self {
            PrimacyType::HEMS => String::from_str("In-home energy management system: 0"),
            PrimacyType::CPSP => String::from_str("Contracted premises service provider: 1"),
            PrimacyType::NCSP => String::from_str("Non-contractual service provider: 2"),
            PrimacyType::User(value) => {
                let mut s = String::from_str("User-defined: ");
                let code = udec_string(*value as u64);
                s.append(code.as_str());
                s
            },
        }
    }
}

/// Law: numeric round-trip — every legal code reads back exactly as the value
/// it constructs, and every valid value is the one its own code constructs.
pub proof fn lemma_primacy_roundtrip(value: u8, p: PrimacyType)
    requires
        p.wf(),
    ensures
        spec_valid_primacy_code(value) ==> PrimacyType::spec_of_code(value).spec_code() == value,
        PrimacyType::spec_of_code(p.spec_code()) == p,
{
}

} // verus!
