//! Structured records: fixed aggregates of validated fields.
//!
//! A record is valid exactly when every field is valid, and is only
//! constructible once every field has been validated: a constructor fails
//! with the first field failure, and no partially valid record is ever
//! observable.

use vstd::prelude::*;
use vstd::string::StrSliceExecFns;

use crate::aliases::Int48;
use crate::aliases::TimeType;
use crate::aliases::UInt16;
use crate::aliases::UInt48;
use crate::bounded::PowerOfTenMultiplierType;
use crate::uom::UomType;
use crate::OutOfRange;

verus! {

/// A time interval anchored at a start instant: a start timestamp and a
/// duration in seconds. Both fields cover their full width, so construction
/// cannot fail.
#[derive(Clone, Copy, Debug, PartialEq, Eq, Structural)]
pub struct DateTimeInterval {
    pub duration: UInt16,
    pub start: TimeType,
}

impl DateTimeInterval {
    /// Constructor; total, as every field value is legal.
    pub fn new(duration: u16, start: i64) -> (r: DateTimeInterval)
        ensures
            r.duration == duration,
            r.start == start,
    {
        DateTimeInterval { duration, start }
    }
}

/// A geographic position: latitude and longitude as bounded-length text.
#[derive(Debug, PartialEq, Eq)]
pub struct GPSLocationType {
    lat: String,
    lon: String,
}

impl GPSLocationType {
    /// The latitude text.
    pub closed spec fn spec_lat(self) -> Seq<char> {
        self.lat@
    }

    /// The longitude text.
    pub closed spec fn spec_lon(self) -> Seq<char> {
        self.lon@
    }

    /// The legal domain of either coordinate: at most 32 characters of text.
    pub open spec fn text_in_range(text: Seq<char>) -> bool {
        text.len() <= 32
    }

    /// Validity: both coordinates fit their bound. Holds of every value of
    /// this type that executable code can observe.
    #[verifier::type_invariant]
    pub open spec fn wf(self) -> bool {
        Self::text_in_range(self.spec_lat()) && Self::text_in_range(self.spec_lon())
    }

    /// Sole constructor: succeeds exactly when both coordinates fit their
    /// bound, and fails on the first over-long field.
    pub fn new(lat: String, lon: String) -> (r: Result<GPSLocationType, OutOfRange>)
        ensures
            r is Ok <==> (Self::text_in_range(lat@) && Self::text_in_range(lon@)),
            r matches Ok(g) ==> g.spec_lat() == lat@ && g.spec_lon() == lon@,
    {
        if lat.as_str().unicode_len() > 32 {
            Err(OutOfRange)
        } else if lon.as_str().unicode_len() > 32 {
            Err(OutOfRange)
        } else {
            Ok(GPSLocationType { lat, lon })
        }
    }

    /// The latitude, extracted; always inside its bound.
    pub fn lat(&self) -> (r: &String)
        ensures
            r@ == self.spec_lat(),
            Self::text_in_range(r@),
    {
        proof {
            use_type_invariant(&*self);
        }
        &self.lat
    }

    /// The longitude, extracted; always inside its bound.
    pub fn lon(&self) -> (r: &String)
        ensures
            r@ == self.spec_lon(),
            Self::text_in_range(r@),
    {
        proof {
            use_type_invariant(&*self);
        }
        &self.lon
    }
}

/// An unsigned energy quantity: a magnitude of 48 bits scaled by a power of
/// ten.
#[derive(Clone, Copy, Debug, PartialEq, Eq, Structural)]
pub struct RealEnergy {
    pub multiplier: PowerOfTenMultiplierType,
    pub value: UInt48,
}

impl RealEnergy {
    /// Constructor from raw field values: succeeds exactly when every field
    /// validates, and fails with the first field failure.
    pub fn new(multiplier: i8, value: u64) -> (r: Result<RealEnergy, OutOfRange>)
        ensures
            r is Ok <==> (PowerOfTenMultiplierType::in_range(multiplier) && UInt48::in_range(
                value,
            )),
            r matches Ok(e) ==> e.multiplier.raw() == multiplier && e.value.raw() == value,
    {
        let m = match PowerOfTenMultiplierType::new(multiplier) {
            Ok(m) => m,
            Err(e) => {
                return Err(e);
            },
        };
        let v = match UInt48::new(value) {
            Ok(v) => v,
            Err(e) => {
                return Err(e);
            },
        };
        Ok(RealEnergy { multiplier: m, value: v })
    }
}

/// A signed energy quantity: a magnitude of 48 bits, either sign, scaled by a
/// power of ten.
#[derive(Clone, Copy, Debug, PartialEq, Eq, Structural)]
pub struct SignedRealEnergy {
    pub multiplier: PowerOfTenMultiplierType,
    pub value: Int48,
}

impl SignedRealEnergy {
    /// Constructor from raw field values: succeeds exactly when every field
    /// validates, and fails with the first field failure.
    pub fn new(multiplier: i8, value: i64) -> (r: Result<SignedRealEnergy, OutOfRange>)
        ensures
            r is Ok <==> (PowerOfTenMultiplierType::in_range(multiplier) && Int48::in_range(
                value,
            )),
            r matches Ok(e) ==> e.multiplier.raw() == multiplier && e.value.raw() == value,
    {
        let m = match PowerOfTenMultiplierType::new(multiplier) {
            Ok(m) => m,
            Err(e) => {
                return Err(e);
            },
        };
        let v = match Int48::new(value) {
            Ok(v) => v,
            Err(e) => {
                return Err(e);
            },
        };
        Ok(SignedRealEnergy { multiplier: m, value: v })
    }
}

/// A unit-tagged numeric value: a magnitude of 48 bits, a unit of measure,
/// and a power-of-ten scale.
#[derive(Clone, Copy, Debug, PartialEq, Eq, Structural)]
pub struct UnitValueType {
    pub multiplier: PowerOfTenMultiplierType,
    pub unit: UomType,
    pub value: Int48,
}

impl UnitValueType {
    /// Constructor from raw field values: succeeds exactly when every field
    /// validates, and fails with the first field failure.
    pub fn new(multiplier: i8, unit: u8, value: i64) -> (r: Result<UnitValueType, OutOfRange>)
        ensures
            r is Ok <==> (PowerOfTenMultiplierType::in_range(multiplier)
                && UomType::spec_of_code(unit) is Some && Int48::in_range(value)),
            r matches Ok(u) ==> u.multiplier.raw() == multiplier && UomType::spec_of_code(unit)
                == Some(u.unit) && u.value.raw() == value,
    {
        let m = match PowerOfTenMultiplierType::new(multiplier) {
            Ok(m) => m,
            Err(e) => {
                return Err(e);
            },
        };
        let u = match UomType::new(unit) {
            Ok(u) => u,
            Err(e) => {
                return Err(e);
            },
        };
        let v = match Int48::new(value) {
            Ok(v) => v,
            Err(e) => {
                return Err(e);
            },
        };
        Ok(UnitValueType { multiplier: m, unit: u, value: v })
    }
}

} // verus!
