//! The primitive alias layer: protocol-meaningful names for fixed-width
//! scalar kinds.
//!
//! An alias carries no behaviour of its own; it only says which fixed-width
//! representation a protocol field uses, so that, say, a 16-bit version
//! number and a 16-bit flag word are never confused by name. Widths that no
//! machine integer has (40 and 48 bits) are wrapper types whose sole
//! constructor enforces the width.

use vstd::prelude::*;

use crate::OutOfRange;

verus! {

/// An 8-bit signed protocol scalar.
pub type Int8 = i8;

/// A 16-bit signed protocol scalar.
pub type Int16 = i16;

/// A 32-bit signed protocol scalar.
pub type Int32 = i32;

/// A 64-bit signed protocol scalar.
pub type Int64 = i64;

/// An 8-bit unsigned protocol scalar.
pub type UInt8 = u8;

/// A 16-bit unsigned protocol scalar.
pub type UInt16 = u16;

/// A 32-bit unsigned protocol scalar.
pub type UInt32 = u32;

/// A 64-bit unsigned protocol scalar.
pub type UInt64 = u64;

/// A 16-bit quantity written as hex on the wire.
pub type HexBinary16 = u16;

/// A 32-bit quantity written as hex on the wire.
pub type HexBinary32 = u32;

/// A 128-bit quantity written as hex on the wire: high and low halves.
pub type HexBinary128 = (u64, u64);

/// Text of at most 32 characters; the bound is enforced where a record
/// validates the field.
pub type String32 = String;

/// Text of at most 42 characters; the bound is enforced where a record
/// validates the field.
pub type String42 = String;

/// A daylight-saving rule, as a packed 32-bit quantity.
pub type DstRuleType = HexBinary32;

/// A locale name.
pub type LocaleType = String42;

/// A master resource identifier.
#[allow(non_camel_case_types)]
pub type mRIDType = HexBinary128;

/// A private enterprise number.
pub type PENType = UInt32;

/// A short-form device identifier: a 40-bit unsigned number.
pub type SFDIType = UInt40;

/// An offset from a timestamp, in seconds.
pub type TimeOffsetType = Int32;

/// A timestamp: seconds since the epoch, as a 64-bit signed number.
pub type TimeType = Int64;

/// A function-set version number.
pub type VersionType = UInt16;

/// A 40-bit unsigned number, held in a 64-bit word whose upper 24 bits are
/// always zero.
#[derive(Clone, Copy, Debug, PartialEq, Eq, Structural)]
pub struct UInt40 {
    value: u64,
}

impl UInt40 {
    /// The raw number this value wraps.
    pub closed spec fn raw(self) -> u64 {
        self.value
    }

    /// The legal domain: everything below 2^40.
    pub open spec fn in_range(value: u64) -> bool {
        value < 0x100_0000_0000
    }

    /// Validity: the wrapped number fits the width. Holds of every value of
    /// this type that executable code can observe.
    #[verifier::type_invariant]
    pub open spec fn wf(self) -> bool {
        Self::in_range(self.raw())
    }

    /// Sole constructor: succeeds exactly on numbers that fit the width.
    pub fn new(value: u64) -> (r: Result<UInt40, OutOfRange>)
        ensures
            r is Ok <==> Self::in_range(value),
            r matches Ok(v) ==> v.raw() == value,
    {
        if value < 0x100_0000_0000 {
            Ok(UInt40 { value })
        } else {
            Err(OutOfRange)
        }
    }

    /// Raw-value extraction, total.
    pub fn to_raw(self) -> (r: u64)
        ensures
            r == self.raw(),
            Self::in_range(r),
    {
        proof {
            use_type_invariant(self);
        }
        self.value
    }

    /// Law: re-validating an already-valid typed value always succeeds and
    /// yields an equal value — every value's raw number fits the width, and
    /// two values with the same raw number are equal.
    pub proof fn lemma_revalidate(self, other: Self)
        requires
            self.wf(),
        ensures
            Self::in_range(self.raw()),
            self.raw() == other.raw() ==> self == other,
    {
    }
}

/// A 48-bit unsigned number, held in a 64-bit word whose upper 16 bits are
/// always zero.
#[derive(Clone, Copy, Debug, PartialEq, Eq, Structural)]
pub struct UInt48 {
    value: u64,
}

impl UInt48 {
    /// The raw number this value wraps.
    pub closed spec fn raw(self) -> u64 {
        self.value
    }

    /// The legal domain: everything below 2^48.
    pub open spec fn in_range(value: u64) -> bool {
        value < 0x1_0000_0000_0000
    }

    /// Validity: the wrapped number fits the width. Holds of every value of
    /// this type that executable code can observe.
    #[verifier::type_invariant]
    pub open spec fn wf(self) -> bool {
        Self::in_range(self.raw())
    }

    /// Sole constructor: succeeds exactly on numbers that fit the width.
    pub fn new(value: u64) -> (r: Result<UInt48, OutOfRange>)
        ensures
            r is Ok <==> Self::in_range(value),
            r matches Ok(v) ==> v.raw() == value,
    {
        if value < 0x1_0000_0000_0000 {
            Ok(UInt48 { value })
        } else {
            Err(OutOfRange)
        }
    }

    /// Raw-value extraction, total.
    pub fn to_raw(self) -> (r: u64)
        ensures
            r == self.raw(),
            Self::in_range(r),
    {
        proof {
            use_type_invariant(self);
        }
        self.value
    }

    /// Law: re-validating an already-valid typed value always succeeds and
    /// yields an equal value — every value's raw number fits the width, and
    /// two values with the same raw number are equal.
    pub proof fn lemma_revalidate(self, other: Self)
        requires
            self.wf(),
        ensures
            Self::in_range(self.raw()),
            self.raw() == other.raw() ==> self == other,
    {
    }
}

/// A 48-bit signed number, held in a 64-bit word inside -2^47 to 2^47 - 1.
#[derive(Clone, Copy, Debug, PartialEq, Eq, Structural)]
pub struct Int48 {
    value: i64,
}

impl Int48 {
    /// The raw number this value wraps.
    pub closed spec fn raw(self) -> i64 {
        self.value
    }

    /// The legal domain: -2^47 to 2^47 - 1, inclusive.
    pub open spec fn in_range(value: i64) -> bool {
        -0x8000_0000_0000 <= value < 0x8000_0000_0000
    }

    /// Validity: the wrapped number fits the width. Holds of every value of
    /// this type that executable code can observe.
    #[verifier::type_invariant]
    pub open spec fn wf(self) -> bool {
        Self::in_range(self.raw())
    }

    /// Sole constructor: succeeds exactly on numbers that fit the width.
    pub fn new(value: i64) -> (r: Result<Int48, OutOfRange>)
        ensures
            r is Ok <==> Self::in_range(value),
            r matches Ok(v) ==> v.raw() == value,
    {
        if -0x8000_0000_0000 <= value && value < 0x8000_0000_0000 {
            Ok(Int48 { value })
        } else {
            Err(OutOfRange)
        }
    }

    /// Raw-value extraction, total.
    pub fn to_raw(self) -> (r: i64)
        ensures
            r == self.raw(),
            Self::in_range(r),
    {
        proof {
            use_type_invariant(self);
        }
        self.value
    }

    /// Law: re-validating an already-valid typed value always succeeds and
    /// yields an equal value — every value's raw number fits the width, and
    /// two values with the same raw number are equal.
    pub proof fn lemma_revalidate(self, other: Self)
        requires
            self.wf(),
        ensures
            Self::in_range(self.raw()),
            self.raw() == other.raw() ==> self == other,
    {
    }
}

} // verus!
