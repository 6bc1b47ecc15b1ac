//! Composite flag set types: independently addressable boolean attributes
//! packed into one fixed-width unsigned integer.
//!
//! Any bit pattern of the backing width is a legal value — construction never
//! fails and there are no cross-bit constraints. The sets combine through
//! union and intersection and answer membership tests; the named constants
//! give each meaningful bit of each field.

use vstd::prelude::*;

verus! {

// Bits of `RoleFlagsType`: the roles a meter or end device plays.
pub const IS_MIRROR: u16 = 1;
pub const IS_PREMISE_AGGREGATION_POINT: u16 = 2;
pub const IS_PEV: u16 = 4;
pub const IS_DER: u16 = 8;
pub const IS_REVENUE_QUALITY: u16 = 16;
pub const IS_DC: u16 = 32;
pub const IS_SUBMETER: u16 = 64;

/// The roles a meter or end device plays, one bit per role.
#[derive(Clone, Copy, Debug, PartialEq, Eq, Structural)]
pub struct RoleFlagsType {
    bits: u16,
}

impl RoleFlagsType {
    /// The backing bit pattern.
    pub closed spec fn raw(self) -> u16 {
        self.bits
    }

    /// Whether bit `i` of this set is set.
    pub open spec fn spec_has_bit(self, i: u16) -> bool {
        i < 16 && (self.raw() >> i) & 1 == 1
    }

    /// Construction from any bit pattern; no validation, every pattern is
    /// legal.
    pub fn from_raw(bits: u16) -> (r: RoleFlagsType)
        ensures
            r.raw() == bits,
    {
        RoleFlagsType { bits }
    }

    /// Raw-value extraction, total.
    pub fn to_raw(self) -> (r: u16)
        ensures
            r == self.raw(),
    {
        self.bits
    }

    /// The set holding every flag of either operand.
    pub fn union(self, other: RoleFlagsType) -> (r: RoleFlagsType)
        ensures
            r.raw() == self.raw() | other.raw(),
    {
        RoleFlagsType { bits: self.bits | other.bits }
    }

    /// The set holding exactly the flags both operands hold.
    pub fn intersect(self, other: RoleFlagsType) -> (r: RoleFlagsType)
        ensures
            r.raw() == self.raw() & other.raw(),
    {
        RoleFlagsType { bits: self.bits & other.bits }
    }

    /// Membership test: whether every bit of `flag` is set in this set.
    pub fn contains(self, flag: RoleFlagsType) -> (r: bool)
        ensures
            r == (self.raw() & flag.raw() == flag.raw()),
    {
        self.bits & flag.bits == flag.bits
    }
}

// Bits of `DeviceCategoryType`: the category of a demand-response device.
pub const PROGRAMMABLE_COMMUNICATING_THERMOSTAT: u32 = 1;
pub const STRIP_HEATERS: u32 = 2;
pub const BASEBOARD_HEATERS: u32 = 4;
pub const WATER_HEATER: u32 = 8;
pub const POOL_PUMP: u32 = 16;
pub const SAUNA: u32 = 32;
pub const HOT_TUB: u32 = 64;
pub const SMART_APPLIANCE: u32 = 128;
pub const IRRIGATION_PUMP: u32 = 256;
pub const MANAGED_COMMERCIAL_AND_INDUSTRIAL_LOADS: u32 = 512;
pub const SIMPLE_MISC_LOADS: u32 = 1024;
pub const EXTERIOR_LIGHTING: u32 = 2048;
pub const INTERIOR_LIGHTING: u32 = 4096;
pub const LOAD_CONTROL_SWITCH: u32 = 8192;
pub const ENERGY_MANAGEMENT_SYSTEM: u32 = 16384;
pub const SMART_ENERGY_MODULE: u32 = 65536;
pub const ELECTRIC_VEHICLE: u32 = 262144;
pub const VIRTUAL_OR_MIXED_DER: u32 = 524288;
pub const RECIPROCATING_ENGINE: u32 = 2097152;
pub const PHOTOVOLTAIC_SYSTEM: u32 = 8388608;
pub const COMBINED_PV_AND_STORAGE: u32 = 16777216;
pub const OTHER_GENERATION_SYSTEM: u32 = 33554432;
pub const OTHER_STORAGE_SYSTEM: u32 = 67108864;

/// The category of a demand-response device, one bit per category.
#[derive(Clone, Copy, Debug, PartialEq, Eq, Structural)]
pub struct DeviceCategoryType {
    bits: u32,
}

impl DeviceCategoryType {
    /// The backing bit pattern.
    pub closed spec fn raw(self) -> u32 {
        self.bits
    }

    /// Whether bit `i` of this set is set.
    pub open spec fn spec_has_bit(self, i: u32) -> bool {
        i < 32 && (self.raw() >> i) & 1 == 1
    }

    /// Construction from any bit pattern; no validation, every pattern is
    /// legal.
    pub fn from_raw(bits: u32) -> (r: DeviceCategoryType)
        ensures
            r.raw() == bits,
    {
        DeviceCategoryType { bits }
    }

    /// Raw-value extraction, total.
    pub fn to_raw(self) -> (r: u32)
        ensures
            r == self.raw(),
    {
        self.bits
    }

    /// The set holding every flag of either operand.
    pub fn union(self, other: DeviceCategoryType) -> (r: DeviceCategoryType)
        ensures
            r.raw() == self.raw() | other.raw(),
    {
        DeviceCategoryType { bits: self.bits | other.bits }
    }

    /// The set holding exactly the flags both operands hold.
    pub fn intersect(self, other: DeviceCategoryType) -> (r: DeviceCategoryType)
        ensures
            r.raw() == self.raw() & other.raw(),
    {
        DeviceCategoryType { bits: self.bits & other.bits }
    }

    /// Membership test: whether every bit of `flag` is set in this set.
    pub fn contains(self, flag: DeviceCategoryType) -> (r: bool)
        ensures
            r == (self.raw() & flag.raw() == flag.raw()),
    {
        self.bits & flag.bits == flag.bits
    }
}

// Bits of `DERControlType`: the control modes a distributed energy resource
// supports.
pub const CHARGE_MODE: u32 = 1;
pub const DISCHARGE_MODE: u32 = 2;
pub const OP_MOD_CONNECT: u32 = 4;
pub const OP_MOD_ENERGIZE: u32 = 8;
pub const OP_MOD_FIXED_PF_ABSORB_W: u32 = 16;
pub const OP_MOD_FIXED_PF_INJECT_W: u32 = 32;
pub const OP_MOD_FIXED_VAR: u32 = 64;
pub const OP_MOD_FIXED_W: u32 = 128;
pub const OP_MOD_FREQ_DROOP: u32 = 256;
pub const OP_MOD_FREQ_WATT: u32 = 512;
pub const OP_MOD_HFRT_MAY_TRIP: u32 = 1024;
pub const OP_MOD_HFRT_MUST_TRIP: u32 = 2048;
pub const OP_MOD_HVRT_MAY_TRIP: u32 = 4096;
pub const OP_MOD_HVRT_MOMENTARY_CESSATION: u32 = 8192;
pub const OP_MOD_HVRT_MUST_TRIP: u32 = 16384;
pub const OP_MOD_LFRT_MAY_TRIP: u32 = 32768;

/// The control modes a distributed energy resource supports, one bit per
/// mode.
#[derive(Clone, Copy, Debug, PartialEq, Eq, Structural)]
pub struct DERControlType {
    bits: u32,
}

impl DERControlType {
    /// The backing bit pattern.
    pub closed spec fn raw(self) -> u32 {
        self.bits
    }

    /// Whether bit `i` of this set is set.
    pub open spec fn spec_has_bit(self, i: u32) -> bool {
        i < 32 && (self.raw() >> i) & 1 == 1
    }

    /// Construction from any bit pattern; no validation, every pattern is
    /// legal.
    pub fn from_raw(bits: u32) -> (r: DERControlType)
        ensures
            r.raw() == bits,
    {
        DERControlType { bits }
    }

    /// Raw-value extraction, total.
    pub fn to_raw(self) -> (r: u32)
        ensures
            r == self.raw(),
    {
        self.bits
    }

    /// The set holding every flag of either operand.
    pub fn union(self, other: DERControlType) -> (r: DERControlType)
        ensures
            r.raw() == self.raw() | other.raw(),
    {
        DERControlType { bits: self.bits | other.bits }
    }

    /// The set holding exactly the flags both operands hold.
    pub fn intersect(self, other: DERControlType) -> (r: DERControlType)
        ensures
            r.raw() == self.raw() & other.raw(),
    {
        DERControlType { bits: self.bits & other.bits }
    }

    /// Membership test: whether every bit of `flag` is set in this set.
    pub fn contains(self, flag: DERControlType) -> (r: bool)
        ensures
            r == (self.raw() & flag.raw() == flag.raw()),
    {
        self.bits & flag.bits == flag.bits
    }
}

/// Law: flag set algebra is set algebra on the bits — a union holds exactly
/// the bits set in either operand, and an intersection exactly the bits set
/// in both.
pub proof fn lemma_role_flags_set_algebra(
    a: RoleFlagsType,
    b: RoleFlagsType,
    u: RoleFlagsType,
    n: RoleFlagsType,
    i: u16,
)
    requires
        u.raw() == a.raw() | b.raw(),
        n.raw() == a.raw() & b.raw(),
        i < 16,
    ensures
        u.spec_has_bit(i) <==> (a.spec_has_bit(i) || b.spec_has_bit(i)),
        n.spec_has_bit(i) <==> (a.spec_has_bit(i) && b.spec_has_bit(i)),
{
    let x = a.raw();
    let y = b.raw();
    assert((((x | y) >> i) & 1 == 1) == (((x >> i) & 1 == 1) || ((y >> i) & 1 == 1)))
        by (bit_vector);
    assert((((x & y) >> i) & 1 == 1) == (((x >> i) & 1 == 1) && ((y >> i) & 1 == 1)))
        by (bit_vector);
}

/// Law: flag set algebra is set algebra on the bits — a union holds exactly
/// the bits set in either operand, and an intersection exactly the bits set
/// in both.
pub proof fn lemma_device_category_set_algebra(
    a: DeviceCategoryType,
    b: DeviceCategoryType,
    u: DeviceCategoryType,
    n: DeviceCategoryType,
    i: u32,
)
    requires
        u.raw() == a.raw() | b.raw(),
        n.raw() == a.raw() & b.raw(),
        i < 32,
    ensures
        u.spec_has_bit(i) <==> (a.spec_has_bit(i) || b.spec_has_bit(i)),
        n.spec_has_bit(i) <==> (a.spec_has_bit(i) && b.spec_has_bit(i)),
{
    let x = a.raw();
    let y = b.raw();
    assert((((x | y) >> i) & 1 == 1) == (((x >> i) & 1 == 1) || ((y >> i) & 1 == 1)))
        by (bit_vector);
    assert((((x & y) >> i) & 1 == 1) == (((x >> i) & 1 == 1) && ((y >> i) & 1 == 1)))
        by (bit_vector);
}

/// Law: flag set algebra is set algebra on the bits — a union holds exactly
/// the bits set in either operand, and an intersection exactly the bits set
/// in both.
pub proof fn lemma_der_control_set_algebra(
    a: DERControlType,
    b: DERControlType,
    u: DERControlType,
    n: DERControlType,
    i: u32,
)
    requires
        u.raw() == a.raw() | b.raw(),
        n.raw() == a.raw() & b.raw(),
        i < 32,
    ensures
        u.spec_has_bit(i) <==> (a.spec_has_bit(i) || b.spec_has_bit(i)),
        n.spec_has_bit(i) <==> (a.spec_has_bit(i) && b.spec_has_bit(i)),
{
    let x = a.raw();
    let y = b.raw();
    assert((((x | y) >> i) & 1 == 1) == (((x >> i) & 1 == 1) || ((y >> i) & 1 == 1)))
        by (bit_vector);
    assert((((x & y) >> i) & 1 == 1) == (((x >> i) & 1 == 1) && ((y >> i) & 1 == 1)))
        by (bit_vector);
}

} // verus!
