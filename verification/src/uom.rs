//! The unit-of-measure enumeration: a purely closed vocabulary of codes.
//!
//! Unlike the extensible "primacy" enumeration, this set has no reserved gap
//! and no user-defined sub-range: every code not listed below is rejected.

use vstd::prelude::*;

use crate::OutOfRange;

verus! {

/// The unit of measure a quantity is stated in.
#[derive(Clone, Copy, Debug, PartialEq, Eq, Structural)]
pub enum UomType {
    NotApplicable,
    Amperes,
    Kelvin,
    DegreesCelsius,
    Voltage,
    Joule,
    Hz,
    W,
    MtrCubed,
    VA,
    VAr,
    CosTheta,
    VSquared,
    ASquared,
    VAh,
    Wh,
    VArh,
    Ah,
    FtCubed,
    FtCubedPerHour,
    MCubedPerHour,
    USGallons,
    UGGallonsPerHour,
    ImperialGallons,
    ImperialGallonsPerHour,
    BTU,
    BTUPerHour,
    Liter,
    LiterPerHour,
    PAGauge,
    PAAbsolute,
    Therm,
}

impl UomType {
    /// The numeric code of this unit on the wire.
    pub open spec fn spec_code(self) -> u8 {
        match self {
            UomType::NotApplicable => 0,
            UomType::Amperes => 5,
            UomType::Kelvin => 6,
            UomType::DegreesCelsius => 23,
            UomType::Voltage => 29,
            UomType::Joule => 31,
            UomType::Hz => 33,
            UomType::W => 38,
            UomType::MtrCubed => 42,
            UomType::VA => 61,
            UomType::VAr => 63,
            UomType::CosTheta => 65,
            UomType::VSquared => 67,
            UomType::ASquared => 69,
            UomType::VAh => 71,
            UomType::Wh => 72,
            UomType::VArh => 73,
            UomType::Ah => 106,
            UomType::FtCubed => 119,
            UomType::FtCubedPerHour => 122,
            UomType::MCubedPerHour => 125,
            UomType::USGallons => 128,
            UomType::UGGallonsPerHour => 129,
            UomType::ImperialGallons => 130,
            UomType::ImperialGallonsPerHour => 131,
            UomType::BTU => 132,
            UomType::BTUPerHour => 133,
            UomType::Liter => 134,
            UomType::LiterPerHour => 137,
            UomType::PAGauge => 140,
            UomType::PAAbsolute => 155,
            UomType::Therm => 169,
        }
    }

    /// The unit a code names, or nothing where the code is not listed.
    pub open spec fn spec_of_code(value: u8) -> Option<UomType> {
        if value == 0 {
            Some(UomType::NotApplicable)
        } else if value == 5 {
            Some(UomType::Amperes)
        } else if value == 6 {
            Some(UomType::Kelvin)
        } else if value == 23 {
            Some(UomType::DegreesCelsius)
        } else if value == 29 {
            Some(UomType::Voltage)
        } else if value == 31 {
            Some(UomType::Joule)
        } else if value == 33 {
            Some(UomType::Hz)
        } else if value == 38 {
            Some(UomType::W)
        } else if value == 42 {
            Some(UomType::MtrCubed)
        } else if value == 61 {
            Some(UomType::VA)
        } else if value == 63 {
            Some(UomType::VAr)
        } else if value == 65 {
            Some(UomType::CosTheta)
        } else if value == 67 {
            Some(UomType::VSquared)
        } else if value == 69 {
            Some(UomType::ASquared)
        } else if value == 71 {
            Some(UomType::VAh)
        } else if value == 72 {
            Some(UomType::Wh)
        } else if value == 73 {
            Some(UomType::VArh)
        } else if value == 106 {
            Some(UomType::Ah)
        } else if value == 119 {
            Some(UomType::FtCubed)
        } else if value == 122 {
            Some(UomType::FtCubedPerHour)
        } else if value == 125 {
            Some(UomType::MCubedPerHour)
        } else if value == 128 {
            Some(UomType::USGallons)
        } else if value == 129 {
            Some(UomType::UGGallonsPerHour)
        } else if value == 130 {
            Some(UomType::ImperialGallons)
        } else if value == 131 {
            Some(UomType::ImperialGallonsPerHour)
        } else if value == 132 {
            Some(UomType::BTU)
        } else if value == 133 {
            Some(UomType::BTUPerHour)
        } else if value == 134 {
            Some(UomType::Liter)
        } else if value == 137 {
            Some(UomType::LiterPerHour)
        } else if value == 140 {
            Some(UomType::PAGauge)
        } else if value == 155 {
            Some(UomType::PAAbsolute)
        } else if value == 169 {
            Some(UomType::Therm)
        } else {
            None
        }
    }

    /// Sole constructor: succeeds exactly on the listed codes and returns the
    /// unit of the code.
    pub fn new(value: u8) -> (r: Result<UomType, OutOfRange>)
        ensures
            r is Ok <==> Self::spec_of_code(value) is Some,
            r matches Ok(u) ==> Self::spec_of_code(value) == Some(u),
    {
        match value {
            0 => Ok(UomType::NotApplicable),
            5 => Ok(UomType::Amperes),
            6 => Ok(UomType::Kelvin),
            23 => Ok(UomType::DegreesCelsius),
            29 => Ok(UomType::Voltage),
            31 => Ok(UomType::Joule),
            33 => Ok(UomType::Hz),
            38 => Ok(UomType::W),
            42 => Ok(UomType::MtrCubed),
            61 => Ok(UomType::VA),
            63 => Ok(UomType::VAr),
            65 => Ok(UomType::CosTheta),
            67 => Ok(UomType::VSquared),
            69 => Ok(UomType::ASquared),
            71 => Ok(UomType::VAh),
            72 => Ok(UomType::Wh),
            73 => Ok(UomType::VArh),
            106 => Ok(UomType::Ah),
            119 => Ok(UomType::FtCubed),
            122 => Ok(UomType::FtCubedPerHour),
            125 => Ok(UomType::MCubedPerHour),
            128 => Ok(UomType::USGallons),
            129 => Ok(UomType::UGGallonsPerHour),
            130 => Ok(UomType::ImperialGallons),
            131 => Ok(UomType::ImperialGallonsPerHour),
            132 => Ok(UomType::BTU),
            133 => Ok(UomType::BTUPerHour),
            134 => Ok(UomType::Liter),
            137 => Ok(UomType::LiterPerHour),
            140 => Ok(UomType::PAGauge),
            155 => Ok(UomType::PAAbsolute),
            169 => Ok(UomType::Therm),
            _ => Err(OutOfRange),
        }
    }

    /// Raw-value extraction, total: the exact code this unit was constructed
    /// from.
    pub fn to_raw(self) -> (r: u8)
        ensures
            r == self.spec_code(),
    {
        match self {
            UomType::NotApplicable => 0,
            UomType::Amperes => 5,
            UomType::Kelvin => 6,
            UomType::DegreesCelsius => 23,
            UomType::Voltage => 29,
            UomType::Joule => 31,
            UomType::Hz => 33,
            UomType::W => 38,
            UomType::MtrCubed => 42,
            UomType::VA => 61,
            UomType::VAr => 63,
            UomType::CosTheta => 65,
            UomType::VSquared => 67,
            UomType::ASquared => 69,
            UomType::VAh => 71,
            UomType::Wh => 72,
            UomType::VArh => 73,
            UomType::Ah => 106,
            UomType::FtCubed => 119,
            UomType::FtCubedPerHour => 122,
            UomType::MCubedPerHour => 125,
            UomType::USGallons => 128,
            UomType::UGGallonsPerHour => 129,
            UomType::ImperialGallons => 130,
            UomType::ImperialGallonsPerHour => 131,
            UomType::BTU => 132,
            UomType::BTUPerHour => 133,
            UomType::Liter => 134,
            UomType::LiterPerHour => 137,
            UomType::PAGauge => 140,
            UomType::PAAbsolute => 155,
            UomType::Therm => 169,
        }
    }
}

/// Law: numeric round-trip — every unit is the one its own code names, so
/// re-validating an extracted code always succeeds and yields an equal value.
pub proof fn lemma_uom_roundtrip(u: UomType)
    ensures
        UomType::spec_of_code(u.spec_code()) == Some(u),
{
}

} // verus!
