//! Bounded value types: single-field wrappers that accept only numeric values
//! inside an inclusive range and reject everything else.
//!
//! Each type's `new` is the only way to obtain an instance (the field is
//! private), so a value of one of these types always carries a number inside
//! the type's range.

use vstd::prelude::*;
use vstd::string::StringExecFns;

use crate::render::spec_idec;
use crate::render::spec_percent;
use crate::render::spec_udec;
use crate::render::idec_string;
use crate::render::percent_string;
use crate::render::udec_string;
use crate::OutOfRange;

verus! {

/// An offset measured in seconds, at most one hour in either direction.
#[derive(Clone, Copy, Debug, PartialEq, Eq, Structural)]
pub struct OneHourRangeType {
    value: i16,
}

impl OneHourRangeType {
    /// The raw number this value wraps.
    pub closed spec fn raw(self) -> i16 {
        self.value
    }

    /// The legal domain: -3600 to 3600 seconds, inclusive.
    pub open spec fn in_range(value: i16) -> bool {
        -3600 <= value <= 3600
    }

    /// Validity: the wrapped number lies inside the range. Holds of every
    /// value of this type that executable code can observe.
    #[verifier::type_invariant]
    pub open spec fn wf(self) -> bool {
        Self::in_range(self.raw())
    }

    /// Sole constructor: succeeds exactly on raw values inside the range.
    pub fn new(value: i16) -> (r: Result<OneHourRangeType, OutOfRange>)
        ensures
            r is Ok <==> Self::in_range(value),
            r matches Ok(v) ==> v.raw() == value,
    {
        if value < -3600 || value > 3600 {
            Err(OutOfRange)
        } else {
            Ok(OneHourRangeType { value })
        }
    }

    /// Raw-value extraction, total.
    pub fn to_raw(self) -> (r: i16)
        ensures
            r == self.raw(),
            Self::in_range(r),
    {
        proof {
            use_type_invariant(self);
        }
        self.value
    }

    /// Canonical rendering: the raw integer in decimal.
    pub fn display(self) -> (s: String)
        ensures
            s@ == spec_idec(self.raw() as int),
    {
        proof {
            use_type_invariant(self);
        }
        idec_string(self.value as i64)
    }

    /// Law: re-validating an already-valid typed value always succeeds and
    /// yields an equal value — every value's raw number lies in the range,
    /// and two values with the same raw number are equal.
    pub proof fn lemma_revalidate(self, other: Self)
        requires
            self.wf(),
        ensures
            Self::in_range(self.raw()),
            self.raw() == other.raw() ==> self == other,
    {
    }
}

/// A percentage measured in hundredths of a percent (102 is 1.02 %).
#[derive(Clone, Copy, Debug, PartialEq, Eq, Structural)]
pub struct PerCent {
    value: u16,
}

impl PerCent {
    /// The raw number this value wraps.
    pub closed spec fn raw(self) -> u16 {
        self.value
    }

    /// The legal domain: 0 to 10000 hundredths of a percent, inclusive.
    pub open spec fn in_range(value: u16) -> bool {
        value <= 10000
    }

    /// Validity: the wrapped number lies inside the range. Holds of every
    /// value of this type that executable code can observe.
    #[verifier::type_invariant]
    pub open spec fn wf(self) -> bool {
        Self::in_range(self.raw())
    }

    /// Sole constructor: succeeds exactly on raw values inside the range.
    pub fn new(value: u16) -> (r: Result<PerCent, OutOfRange>)
        ensures
            r is Ok <==> Self::in_range(value),
            r matches Ok(v) ==> v.raw() == value,
    {
        if value > 10000 {
            Err(OutOfRange)
        } else {
            Ok(PerCent { value })
        }
    }

    /// Raw-value extraction, total.
    pub fn to_raw(self) -> (r: u16)
        ensures
            r == self.raw(),
            Self::in_range(r),
    {
        proof {
            use_type_invariant(self);
        }
        self.value
    }

    /// Canonical rendering: raw / 100 with exactly two decimals, then '%'.
    pub fn display(self) -> (s: String)
        ensures
            s@ == spec_percent(self.raw() as int),
    {
        percent_string(self.value as i64)
    }

    /// Law: re-validating an already-valid typed value always succeeds and
    /// yields an equal value — every value's raw number lies in the range,
    /// and two values with the same raw number are equal.
    pub proof fn lemma_revalidate(self, other: Self)
        requires
            self.wf(),
        ensures
            Self::in_range(self.raw()),
            self.raw() == other.raw() ==> self == other,
    {
    }
}

/// A signed percentage measured in hundredths of a percent (-250 is -2.50 %).
#[derive(Clone, Copy, Debug, PartialEq, Eq, Structural)]
pub struct SignedPerCent {
    value: i16,
}

impl SignedPerCent {
    /// The raw number this value wraps.
    pub closed spec fn raw(self) -> i16 {
        self.value
    }

    /// The legal domain: -10000 to 10000 hundredths of a percent, inclusive.
    pub open spec fn in_range(value: i16) -> bool {
        -10000 <= value <= 10000
    }

    /// Validity: the wrapped number lies inside the range. Holds of every
    /// value of this type that executable code can observe.
    #[verifier::type_invariant]
    pub open spec fn wf(self) -> bool {
        Self::in_range(self.raw())
    }

    /// Sole constructor: succeeds exactly on raw values inside the range.
    pub fn new(value: i16) -> (r: Result<SignedPerCent, OutOfRange>)
        ensures
            r is Ok <==> Self::in_range(value),
            r matches Ok(v) ==> v.raw() == value,
    {
        if value < -10000 || value > 10000 {
            Err(OutOfRange)
        } else {
            Ok(SignedPerCent { value })
        }
    }

    /// Raw-value extraction, total.
    pub fn to_raw(self) -> (r: i16)
        ensures
            r == self.raw(),
            Self::in_range(r),
    {
        proof {
            use_type_invariant(self);
        }
        self.value
    }

    /// Canonical rendering: raw / 100 with exactly two decimals, then '%',
    /// with a leading '-' for negative values.
    pub fn display(self) -> (s: String)
        ensures
            s@ == spec_percent(self.raw() as int),
    {
        percent_string(self.value as i64)
    }

    /// Law: re-validating an already-valid typed value always succeeds and
    /// yields an equal value — every value's raw number lies in the range,
    /// and two values with the same raw number are equal.
    pub proof fn lemma_revalidate(self, other: Self)
        requires
            self.wf(),
        ensures
            Self::in_range(self.raw()),
            self.raw() == other.raw() ==> self == other,
    {
    }
}

/// A personal identification number of at most six decimal digits.
#[derive(Clone, Copy, Debug, PartialEq, Eq, Structural)]
pub struct PINType {
    value: u32,
}

impl PINType {
    /// The raw number this value wraps.
    pub closed spec fn raw(self) -> u32 {
        self.value
    }

    /// The legal domain: 0 to 999999, inclusive.
    pub open spec fn in_range(value: u32) -> bool {
        value <= 999999
    }

    /// Validity: the wrapped number lies inside the range. Holds of every
    /// value of this type that executable code can observe.
    #[verifier::type_invariant]
    pub open spec fn wf(self) -> bool {
        Self::in_range(self.raw())
    }

    /// Sole constructor: succeeds exactly on raw values inside the range.
    pub fn new(value: u32) -> (r: Result<PINType, OutOfRange>)
        ensures
            r is Ok <==> Self::in_range(value),
            r matches Ok(v) ==> v.raw() == value,
    {
        if value > 999999 {
            Err(OutOfRange)
        } else {
            Ok(PINType { value })
        }
    }

    /// Raw-value extraction, total.
    pub fn to_raw(self) -> (r: u32)
        ensures
            r == self.raw(),
            Self::in_range(r),
    {
        proof {
            use_type_invariant(self);
        }
        self.value
    }

    /// Canonical rendering: the raw integer in decimal, no padding.
    pub fn display(self) -> (s: String)
        ensures
            s@ == spec_udec(self.raw() as nat),
    {
        udec_string(self.value as u64)
    }

    /// Law: re-validating an already-valid typed value always succeeds and
    /// yields an equal value — every value's raw number lies in the range,
    /// and two values with the same raw number are equal.
    pub proof fn lemma_revalidate(self, other: Self)
        requires
            self.wf(),
        ensures
            Self::in_range(self.raw()),
            self.raw() == other.raw() ==> self == other,
    {
    }
}

/// A decimal exponent applied to a magnitude: a power of ten between
/// 10^-9 and 10^9.
#[derive(Clone, Copy, Debug, PartialEq, Eq, Structural)]
pub struct PowerOfTenMultiplierType {
    value: i8,
}

impl PowerOfTenMultiplierType {
    /// The raw number this value wraps.
    pub closed spec fn raw(self) -> i8 {
        self.value
    }

    /// The legal domain: -9 to 9, inclusive.
    pub open spec fn in_range(value: i8) -> bool {
        -9 <= value <= 9
    }

    /// Validity: the wrapped number lies inside the range. Holds of every
    /// value of this type that executable code can observe.
    #[verifier::type_invariant]
    pub open spec fn wf(self) -> bool {
        Self::in_range(self.raw())
    }

    /// Sole constructor: succeeds exactly on raw values inside the range.
    pub fn new(value: i8) -> (r: Result<PowerOfTenMultiplierType, OutOfRange>)
        ensures
            r is Ok <==> Self::in_range(value),
            r matches Ok(v) ==> v.raw() == value,
    {
        if value < -9 || value > 9 {
            Err(OutOfRange)
        } else {
            Ok(PowerOfTenMultiplierType { value })
        }
    }

    /// Raw-value extraction, total.
    pub fn to_raw(self) -> (r: i8)
        ensures
            r == self.raw(),
            Self::in_range(r),
    {
        proof {
            use_type_invariant(self);
        }
        self.value
    }

    /// Canonical rendering: "x " followed by the raw integer in decimal.
    pub fn display(self) -> (s: String)
        ensures
            s@ == seq!['x', ' '] + spec_idec(self.raw() as int),
    {
        proof {
            use_type_invariant(self);
        }
        let mut s = String::from_str("x ");
        let mag = idec_string(self.value as i64);
        s.append(mag.as_str());
        proof {
            reveal_strlit("x ");
            assert(s@ =~= seq!['x', ' '] + spec_idec(self.raw() as int));
        }
        s
    }

    /// Law: re-validating an already-valid typed value always succeeds and
    /// yields an equal value — every value's raw number lies in the range,
    /// and two values with the same raw number are equal.
    pub proof fn lemma_revalidate(self, other: Self)
        requires
            self.wf(),
        ensures
            Self::in_range(self.raw()),
            self.raw() == other.raw() ==> self == other,
    {
    }
}

impl Default for PowerOfTenMultiplierType {
    /// The neutral multiplier, 10^0.
    fn default() -> (r: Self)
        ensures
            r.raw() == 0,
    {
        PowerOfTenMultiplierType { value: 0 }
    }
}

} // verus!
