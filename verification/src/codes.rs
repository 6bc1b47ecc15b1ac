//! The purely closed code enumerations of the data dictionary.
//!
//! Each is a closed vocabulary of named integer codes with no reserved gap
//! and no user-defined sub-range: every code not listed is rejected, and
//! every value reads back as the exact code it was constructed from.

use vstd::prelude::*;

use crate::OutOfRange;

verus! {

/// Which statistical qualification applies to a reading.
#[allow(non_camel_case_types)]
#[derive(Clone, Copy, Debug, PartialEq, Eq, Structural)]
pub enum DataQualifierType {
    NotApplicable,
    Average,
    Maximum,
    Minimum,
    Normal,
    Standard_deviation_ofPopulation,
    Standard_deviation_ofSample,
}

impl DataQualifierType {
    /// The numeric code of this value on the wire.
    pub open spec fn spec_code(self) -> u8 {
        match self {
            DataQualifierType::NotApplicable => 0,
            DataQualifierType::Average => 2,
            DataQualifierType::Maximum => 8,
            DataQualifierType::Minimum => 9,
            DataQualifierType::Normal => 12,
            DataQualifierType::Standard_deviation_ofPopulation => 29,
            DataQualifierType::Standard_deviation_ofSample => 30,
        }
    }

    /// The value a code names, or nothing where the code is not listed.
    pub open spec fn spec_of_code(value: u8) -> Option<DataQualifierType> {
        if value == 0 {
            Some(DataQualifierType::NotApplicable)
        } else if value == 2 {
            Some(DataQualifierType::Average)
        } else if value == 8 {
            Some(DataQualifierType::Maximum)
        } else if value == 9 {
            Some(DataQualifierType::Minimum)
        } else if value == 12 {
            Some(DataQualifierType::Normal)
        } else if value == 29 {
            Some(DataQualifierType::Standard_deviation_ofPopulation)
        } else if value == 30 {
            Some(DataQualifierType::Standard_deviation_ofSample)
        } else {
            None
        }
    }

    /// Sole constructor: succeeds exactly on the listed codes and returns
    /// the value of the code.
    pub fn new(value: u8) -> (r: Result<DataQualifierType, OutOfRange>)
        ensures
            r is Ok <==> Self::spec_of_code(value) is Some,
            r matches Ok(v) ==> Self::spec_of_code(value) == Some(v),
    {
        match value {
            0 => Ok(DataQualifierType::NotApplicable),
            2 => Ok(DataQualifierType::Average),
            8 => Ok(DataQualifierType::Maximum),
            9 => Ok(DataQualifierType::Minimum),
            12 => Ok(DataQualifierType::Normal),
            29 => Ok(DataQualifierType::Standard_deviation_ofPopulation),
            30 => Ok(DataQualifierType::Standard_deviation_ofSample),
            _ => Err(OutOfRange),
        }
    }

    /// Raw-value extraction, total: the exact code this value was
    /// constructed from.
    pub fn to_raw(self) -> (r: u8)
        ensures
            r == self.spec_code(),
    {
        match self {
            DataQualifierType::NotApplicable => 0,
            DataQualifierType::Average => 2,
            DataQualifierType::Maximum => 8,
            DataQualifierType::Minimum => 9,
            DataQualifierType::Normal => 12,
            DataQualifierType::Standard_deviation_ofPopulation => 29,
            DataQualifierType::Standard_deviation_ofSample => 30,
        }
    }
}

/// Law: numeric round-trip — every value is the one its own code names, so
/// re-validating an extracted code always succeeds and yields an equal value.
pub proof fn lemma_data_qualifier_type_roundtrip(v: DataQualifierType)
    ensures
        DataQualifierType::spec_of_code(v.spec_code()) == Some(v),
{
}

/// Which commodity a reading measures.
#[derive(Clone, Copy, Debug, PartialEq, Eq, Structural)]
pub enum CommodityType {
    NotApplicable,
    ElectricitySecondaryMetered,
    ElectricityPrimaryMetered,
    Air,
    NaturalGas,
    Propane,
    PotableWater,
    Steam,
    WasteWater,
    HeatingFluid,
    CoolingFluid,
}

impl CommodityType {
    /// The numeric code of this value on the wire.
    pub open spec fn spec_code(self) -> u8 {
        match self {
            CommodityType::NotApplicable => 0,
            CommodityType::ElectricitySecondaryMetered => 1,
            CommodityType::ElectricityPrimaryMetered => 2,
            CommodityType::Air => 4,
            CommodityType::NaturalGas => 7,
            CommodityType::Propane => 8,
            CommodityType::PotableWater => 9,
            CommodityType::Steam => 10,
            CommodityType::WasteWater => 11,
            CommodityType::HeatingFluid => 12,
            CommodityType::CoolingFluid => 13,
        }
    }

    /// The value a code names, or nothing where the code is not listed.
    pub open spec fn spec_of_code(value: u8) -> Option<CommodityType> {
        if value == 0 {
            Some(CommodityType::NotApplicable)
        } else if value == 1 {
            Some(CommodityType::ElectricitySecondaryMetered)
        } else if value == 2 {
            Some(CommodityType::ElectricityPrimaryMetered)
        } else if value == 4 {
            Some(CommodityType::Air)
        } else if value == 7 {
            Some(CommodityType::NaturalGas)
        } else if value == 8 {
            Some(CommodityType::Propane)
        } else if value == 9 {
            Some(CommodityType::PotableWater)
        } else if value == 10 {
            Some(CommodityType::Steam)
        } else if value == 11 {
            Some(CommodityType::WasteWater)
        } else if value == 12 {
            Some(CommodityType::HeatingFluid)
        } else if value == 13 {
            Some(CommodityType::CoolingFluid)
        } else {
            None
        }
    }

    /// Sole constructor: succeeds exactly on the listed codes and returns
    /// the value of the code.
    pub fn new(value: u8) -> (r: Result<CommodityType, OutOfRange>)
        ensures
            r is Ok <==> Self::spec_of_code(value) is Some,
            r matches Ok(v) ==> Self::spec_of_code(value) == Some(v),
    {
        match value {
            0 => Ok(CommodityType::NotApplicable),
            1 => Ok(CommodityType::ElectricitySecondaryMetered),
            2 => Ok(CommodityType::ElectricityPrimaryMetered),
            4 => Ok(CommodityType::Air),
            7 => Ok(CommodityType::NaturalGas),
            8 => Ok(CommodityType::Propane),
            9 => Ok(CommodityType::PotableWater),
            10 => Ok(CommodityType::Steam),
            11 => Ok(CommodityType::WasteWater),
            12 => Ok(CommodityType::HeatingFluid),
            13 => Ok(CommodityType::CoolingFluid),
            _ => Err(OutOfRange),
        }
    }

    /// Raw-value extraction, total: the exact code this value was
    /// constructed from.
    pub fn to_raw(self) -> (r: u8)
        ensures
            r == self.spec_code(),
    {
        match self {
            CommodityType::NotApplicable => 0,
            CommodityType::ElectricitySecondaryMetered => 1,
            CommodityType::ElectricityPrimaryMetered => 2,
            CommodityType::Air => 4,
            CommodityType::NaturalGas => 7,
            CommodityType::Propane => 8,
            CommodityType::PotableWater => 9,
            CommodityType::Steam => 10,
            CommodityType::WasteWater => 11,
            CommodityType::HeatingFluid => 12,
            CommodityType::CoolingFluid => 13,
        }
    }
}

/// Law: numeric round-trip — every value is the one its own code names, so
/// re-validating an extracted code always succeeds and yields an equal value.
pub proof fn lemma_commodity_type_roundtrip(v: CommodityType)
    ensures
        CommodityType::spec_of_code(v.spec_code()) == Some(v),
{
}

/// The direction of flow a reading was taken in.
#[derive(Clone, Copy, Debug, PartialEq, Eq, Structural)]
pub enum FlowDirectionType {
    NotApplicable,
    Forward,
    Reverse,
}

impl FlowDirectionType {
    /// The numeric code of this value on the wire.
    pub open spec fn spec_code(self) -> u8 {
        match self {
            FlowDirectionType::NotApplicable => 0,
            FlowDirectionType::Forward => 1,
            FlowDirectionType::Reverse => 19,
        }
    }

    /// The value a code names, or nothing where the code is not listed.
    pub open spec fn spec_of_code(value: u8) -> Option<FlowDirectionType> {
        if value == 0 {
            Some(FlowDirectionType::NotApplicable)
        } else if value == 1 {
            Some(FlowDirectionType::Forward)
        } else if value == 19 {
            Some(FlowDirectionType::Reverse)
        } else {
            None
        }
    }

    /// Sole constructor: succeeds exactly on the listed codes and returns
    /// the value of the code.
    pub fn new(value: u8) -> (r: Result<FlowDirectionType, OutOfRange>)
        ensures
            r is Ok <==> Self::spec_of_code(value) is Some,
            r matches Ok(v) ==> Self::spec_of_code(value) == Some(v),
    {
        match value {
            0 => Ok(FlowDirectionType::NotApplicable),
            1 => Ok(FlowDirectionType::Forward),
            19 => Ok(FlowDirectionType::Reverse),
            _ => Err(OutOfRange),
        }
    }

    /// Raw-value extraction, total: the exact code this value was
    /// constructed from.
    pub fn to_raw(self) -> (r: u8)
        ensures
            r == self.spec_code(),
    {
        match self {
            FlowDirectionType::NotApplicable => 0,
            FlowDirectionType::Forward => 1,
            FlowDirectionType::Reverse => 19,
        }
    }
}

/// Law: numeric round-trip — every value is the one its own code names, so
/// re-validating an extracted code always succeeds and yields an equal value.
pub proof fn lemma_flow_direction_type_roundtrip(v: FlowDirectionType)
    ensures
        FlowDirectionType::spec_of_code(v.spec_code()) == Some(v),
{
}

/// The time-of-use tier a reading belongs to.
#[allow(non_camel_case_types)]
#[derive(Clone, Copy, Debug, PartialEq, Eq, Structural)]
pub enum TOUType {
    NotApplicable,
    TOU_A,
    TOU_B,
    TOU_C,
    TOU_D,
    TOU_E,
    TOU_F,
    TOU_G,
    TOU_H,
    TOU_I,
    TOU_J,
    TOU_K,
    TOU_L,
    TOU_M,
    TOU_N,
    TOU_O,
}

impl TOUType {
    /// The numeric code of this value on the wire.
    pub open spec fn spec_code(self) -> u8 {
        match self {
            TOUType::NotApplicable => 0,
            TOUType::TOU_A => 1,
            TOUType::TOU_B => 2,
            TOUType::TOU_C => 3,
            TOUType::TOU_D => 4,
            TOUType::TOU_E => 5,
            TOUType::TOU_F => 6,
            TOUType::TOU_G => 7,
            TOUType::TOU_H => 8,
            TOUType::TOU_I => 9,
            TOUType::TOU_J => 10,
            TOUType::TOU_K => 11,
            TOUType::TOU_L => 12,
            TOUType::TOU_M => 13,
            TOUType::TOU_N => 14,
            TOUType::TOU_O => 15,
        }
    }

    /// The value a code names, or nothing where the code is not listed.
    pub open spec fn spec_of_code(value: u8) -> Option<TOUType> {
        if value == 0 {
            Some(TOUType::NotApplicable)
        } else if value == 1 {
            Some(TOUType::TOU_A)
        } else if value == 2 {
            Some(TOUType::TOU_B)
        } else if value == 3 {
            Some(TOUType::TOU_C)
        } else if value == 4 {
            Some(TOUType::TOU_D)
        } else if value == 5 {
            Some(TOUType::TOU_E)
        } else if value == 6 {
            Some(TOUType::TOU_F)
        } else if value == 7 {
            Some(TOUType::TOU_G)
        } else if value == 8 {
            Some(TOUType::TOU_H)
        } else if value == 9 {
            Some(TOUType::TOU_I)
        } else if value == 10 {
            Some(TOUType::TOU_J)
        } else if value == 11 {
            Some(TOUType::TOU_K)
        } else if value == 12 {
            Some(TOUType::TOU_L)
        } else if value == 13 {
            Some(TOUType::TOU_M)
        } else if value == 14 {
            Some(TOUType::TOU_N)
        } else if value == 15 {
            Some(TOUType::TOU_O)
        } else {
            None
        }
    }

    /// Sole constructor: succeeds exactly on the listed codes and returns
    /// the value of the code.
    pub fn new(value: u8) -> (r: Result<TOUType, OutOfRange>)
        ensures
            r is Ok <==> Self::spec_of_code(value) is Some,
            r matches Ok(v) ==> Self::spec_of_code(value) == Some(v),
    {
        match value {
            0 => Ok(TOUType::NotApplicable),
            1 => Ok(TOUType::TOU_A),
            2 => Ok(TOUType::TOU_B),
            3 => Ok(TOUType::TOU_C),
            4 => Ok(TOUType::TOU_D),
            5 => Ok(TOUType::TOU_E),
            6 => Ok(TOUType::TOU_F),
            7 => Ok(TOUType::TOU_G),
            8 => Ok(TOUType::TOU_H),
            9 => Ok(TOUType::TOU_I),
            10 => Ok(TOUType::TOU_J),
            11 => Ok(TOUType::TOU_K),
            12 => Ok(TOUType::TOU_L),
            13 => Ok(TOUType::TOU_M),
            14 => Ok(TOUType::TOU_N),
            15 => Ok(TOUType::TOU_O),
            _ => Err(OutOfRange),
        }
    }

    /// Raw-value extraction, total: the exact code this value was
    /// constructed from.
    pub fn to_raw(self) -> (r: u8)
        ensures
            r == self.spec_code(),
    {
        match self {
            TOUType::NotApplicable => 0,
            TOUType::TOU_A => 1,
            TOUType::TOU_B => 2,
            TOUType::TOU_C => 3,
            TOUType::TOU_D => 4,
            TOUType::TOU_E => 5,
            TOUType::TOU_F => 6,
            TOUType::TOU_G => 7,
            TOUType::TOU_H => 8,
            TOUType::TOU_I => 9,
            TOUType::TOU_J => 10,
            TOUType::TOU_K => 11,
            TOUType::TOU_L => 12,
            TOUType::TOU_M => 13,
            TOUType::TOU_N => 14,
            TOUType::TOU_O => 15,
        }
    }
}

/// Law: numeric round-trip — every value is the one its own code names, so
/// re-validating an extracted code always succeeds and yields an equal value.
pub proof fn lemma_toutype_roundtrip(v: TOUType)
    ensures
        TOUType::spec_of_code(v.spec_code()) == Some(v),
{
}

/// The unit a metered quantity is stated in.
#[allow(non_camel_case_types)]
#[derive(Clone, Copy, Debug, PartialEq, Eq, Structural)]
pub enum UnitType {
    kWh,
    kW,
    Watts,
    CubicMeters,
    CubicFeet,
    USGallons,
    ImperialGallons,
    BTU,
    Liters,
    kPAGauge,
    kPAAbsolute,
    Megajoule,
    Unitless,
}

impl UnitType {
    /// The numeric code of this value on the wire.
    pub open spec fn spec_code(self) -> u8 {
        match self {
            UnitType::kWh => 0,
            UnitType::kW => 1,
            UnitType::Watts => 2,
            UnitType::CubicMeters => 3,
            UnitType::CubicFeet => 4,
            UnitType::USGallons => 5,
            UnitType::ImperialGallons => 6,
            UnitType::BTU => 7,
            UnitType::Liters => 8,
            UnitType::kPAGauge => 9,
            UnitType::kPAAbsolute => 10,
            UnitType::Megajoule => 11,
            UnitType::Unitless => 12,
        }
    }

    /// The value a code names, or nothing where the code is not listed.
    pub open spec fn spec_of_code(value: u8) -> Option<UnitType> {
        if value == 0 {
            Some(UnitType::kWh)
        } else if value == 1 {
            Some(UnitType::kW)
        } else if value == 2 {
            Some(UnitType::Watts)
        } else if value == 3 {
            Some(UnitType::CubicMeters)
        } else if value == 4 {
            Some(UnitType::CubicFeet)
        } else if value == 5 {
            Some(UnitType::USGallons)
        } else if value == 6 {
            Some(UnitType::ImperialGallons)
        } else if value == 7 {
            Some(UnitType::BTU)
        } else if value == 8 {
            Some(UnitType::Liters)
        } else if value == 9 {
            Some(UnitType::kPAGauge)
        } else if value == 10 {
            Some(UnitType::kPAAbsolute)
        } else if value == 11 {
            Some(UnitType::Megajoule)
        } else if value == 12 {
            Some(UnitType::Unitless)
        } else {
            None
        }
    }

    /// Sole constructor: succeeds exactly on the listed codes and returns
    /// the value of the code.
    pub fn new(value: u8) -> (r: Result<UnitType, OutOfRange>)
        ensures
            r is Ok <==> Self::spec_of_code(value) is Some,
            r matches Ok(v) ==> Self::spec_of_code(value) == Some(v),
    {
        match value {
            0 => Ok(UnitType::kWh),
            1 => Ok(UnitType::kW),
            2 => Ok(UnitType::Watts),
            3 => Ok(UnitType::CubicMeters),
            4 => Ok(UnitType::CubicFeet),
            5 => Ok(UnitType::USGallons),
            6 => Ok(UnitType::ImperialGallons),
            7 => Ok(UnitType::BTU),
            8 => Ok(UnitType::Liters),
            9 => Ok(UnitType::kPAGauge),
            10 => Ok(UnitType::kPAAbsolute),
            11 => Ok(UnitType::Megajoule),
            12 => Ok(UnitType::Unitless),
            _ => Err(OutOfRange),
        }
    }

    /// Raw-value extraction, total: the exact code this value was
    /// constructed from.
    pub fn to_raw(self) -> (r: u8)
        ensures
            r == self.spec_code(),
    {
        match self {
            UnitType::kWh => 0,
            UnitType::kW => 1,
            UnitType::Watts => 2,
            UnitType::CubicMeters => 3,
            UnitType::CubicFeet => 4,
            UnitType::USGallons => 5,
            UnitType::ImperialGallons => 6,
            UnitType::BTU => 7,
            UnitType::Liters => 8,
            UnitType::kPAGauge => 9,
            UnitType::kPAAbsolute => 10,
            UnitType::Megajoule => 11,
            UnitType::Unitless => 12,
        }
    }
}

/// Law: numeric round-trip — every value is the one its own code names, so
/// re-validating an extracted code always succeeds and yields an equal value.
pub proof fn lemma_unit_type_roundtrip(v: UnitType)
    ensures
        UnitType::spec_of_code(v.spec_code()) == Some(v),
{
}

/// How a reading accumulates over time.
#[derive(Clone, Copy, Debug, PartialEq, Eq, Structural)]
pub enum AccumlationBehaviourType {
    NotApplicable,
    Cumulative,
    DeltaData,
    Indicating,
    Summation,
    Instantaneous,
}

impl AccumlationBehaviourType {
    /// The numeric code of this value on the wire.
    pub open spec fn spec_code(self) -> u8 {
        match self {
            AccumlationBehaviourType::NotApplicable => 0,
            AccumlationBehaviourType::Cumulative => 3,
            AccumlationBehaviourType::DeltaData => 4,
            AccumlationBehaviourType::Indicating => 6,
            AccumlationBehaviourType::Summation => 9,
            AccumlationBehaviourType::Instantaneous => 12,
        }
    }

    /// The value a code names, or nothing where the code is not listed.
    pub open spec fn spec_of_code(value: u8) -> Option<AccumlationBehaviourType> {
        if value == 0 {
            Some(AccumlationBehaviourType::NotApplicable)
        } else if value == 3 {
            Some(AccumlationBehaviourType::Cumulative)
        } else if value == 4 {
            Some(AccumlationBehaviourType::DeltaData)
        } else if value == 6 {
            Some(AccumlationBehaviourType::Indicating)
        } else if value == 9 {
            Some(AccumlationBehaviourType::Summation)
        } else if value == 12 {
            Some(AccumlationBehaviourType::Instantaneous)
        } else {
            None
        }
    }

    /// Sole constructor: succeeds exactly on the listed codes and returns
    /// the value of the code.
    pub fn new(value: u8) -> (r: Result<AccumlationBehaviourType, OutOfRange>)
        ensures
            r is Ok <==> Self::spec_of_code(value) is Some,
            r matches Ok(v) ==> Self::spec_of_code(value) == Some(v),
    {
        match value {
            0 => Ok(AccumlationBehaviourType::NotApplicable),
            3 => Ok(AccumlationBehaviourType::Cumulative),
            4 => Ok(AccumlationBehaviourType::DeltaData),
            6 => Ok(AccumlationBehaviourType::Indicating),
            9 => Ok(AccumlationBehaviourType::Summation),
            12 => Ok(AccumlationBehaviourType::Instantaneous),
            _ => Err(OutOfRange),
        }
    }

    /// Raw-value extraction, total: the exact code this value was
    /// constructed from.
    pub fn to_raw(self) -> (r: u8)
        ensures
            r == self.spec_code(),
    {
        match self {
            AccumlationBehaviourType::NotApplicable => 0,
            AccumlationBehaviourType::Cumulative => 3,
            AccumlationBehaviourType::DeltaData => 4,
            AccumlationBehaviourType::Indicating => 6,
            AccumlationBehaviourType::Summation => 9,
            AccumlationBehaviourType::Instantaneous => 12,
        }
    }
}

/// Law: numeric round-trip — every value is the one its own code names, so
/// re-validating an extracted code always succeeds and yields an equal value.
pub proof fn lemma_accumlation_behaviour_type_roundtrip(v: AccumlationBehaviourType)
    ensures
        AccumlationBehaviourType::spec_of_code(v.spec_code()) == Some(v),
{
}

/// The kind of appliance load reduction requested.
#[derive(Clone, Copy, Debug, PartialEq, Eq, Structural)]
pub enum ApplianceLoadReductionType {
    DelayApplianceLoad,
    TemporaryApplianceLoadReduction,
}

impl ApplianceLoadReductionType {
    /// The numeric code of this value on the wire.
    pub open spec fn spec_code(self) -> u8 {
        match self {
            ApplianceLoadReductionType::DelayApplianceLoad => 0,
            ApplianceLoadReductionType::TemporaryApplianceLoadReduction => 1,
        }
    }

    /// The value a code names, or nothing where the code is not listed.
    pub open spec fn spec_of_code(value: u8) -> Option<ApplianceLoadReductionType> {
        if value == 0 {
            Some(ApplianceLoadReductionType::DelayApplianceLoad)
        } else if value == 1 {
            Some(ApplianceLoadReductionType::TemporaryApplianceLoadReduction)
        } else {
            None
        }
    }

    /// Sole constructor: succeeds exactly on the listed codes and returns
    /// the value of the code.
    pub fn new(value: u8) -> (r: Result<ApplianceLoadReductionType, OutOfRange>)
        ensures
            r is Ok <==> Self::spec_of_code(value) is Some,
            r matches Ok(v) ==> Self::spec_of_code(value) == Some(v),
    {
        match value {
            0 => Ok(ApplianceLoadReductionType::DelayApplianceLoad),
            1 => Ok(ApplianceLoadReductionType::TemporaryApplianceLoadReduction),
            _ => Err(OutOfRange),
        }
    }

    /// Raw-value extraction, total: the exact code this value was
    /// constructed from.
    pub fn to_raw(self) -> (r: u8)
        ensures
            r == self.spec_code(),
    {
        match self {
            ApplianceLoadReductionType::DelayApplianceLoad => 0,
            ApplianceLoadReductionType::TemporaryApplianceLoadReduction => 1,
        }
    }
}

/// Law: numeric round-trip — every value is the one its own code names, so
/// re-validating an extracted code always succeeds and yields an equal value.
pub proof fn lemma_appliance_load_reduction_type_roundtrip(v: ApplianceLoadReductionType)
    ensures
        ApplianceLoadReductionType::spec_of_code(v.spec_code()) == Some(v),
{
}

/// The kind of service a meter provides.
#[derive(Clone, Copy, Debug, PartialEq, Eq, Structural)]
pub enum ServiceKind {
    Electricity,
    Gas,
    Water,
    Time,
    Pressure,
    Heat,
    Cooling,
}

impl ServiceKind {
    /// The numeric code of this value on the wire.
    pub open spec fn spec_code(self) -> u8 {
        match self {
            ServiceKind::Electricity => 0,
            ServiceKind::Gas => 1,
            ServiceKind::Water => 2,
            ServiceKind::Time => 3,
            ServiceKind::Pressure => 4,
            ServiceKind::Heat => 5,
            ServiceKind::Cooling => 6,
        }
    }

    /// The value a code names, or nothing where the code is not listed.
    pub open spec fn spec_of_code(value: u8) -> Option<ServiceKind> {
        if value == 0 {
            Some(ServiceKind::Electricity)
        } else if value == 1 {
            Some(ServiceKind::Gas)
        } else if value == 2 {
            Some(ServiceKind::Water)
        } else if value == 3 {
            Some(ServiceKind::Time)
        } else if value == 4 {
            Some(ServiceKind::Pressure)
        } else if value == 5 {
            Some(ServiceKind::Heat)
        } else if value == 6 {
            Some(ServiceKind::Cooling)
        } else {
            None
        }
    }

    /// Sole constructor: succeeds exactly on the listed codes and returns
    /// the value of the code.
    pub fn new(value: u8) -> (r: Result<ServiceKind, OutOfRange>)
        ensures
            r is Ok <==> Self::spec_of_code(value) is Some,
            r matches Ok(v) ==> Self::spec_of_code(value) == Some(v),
    {
        match value {
            0 => Ok(ServiceKind::Electricity),
            1 => Ok(ServiceKind::Gas),
            2 => Ok(ServiceKind::Water),
            3 => Ok(ServiceKind::Time),
            4 => Ok(ServiceKind::Pressure),
            5 => Ok(ServiceKind::Heat),
            6 => Ok(ServiceKind::Cooling),
            _ => Err(OutOfRange),
        }
    }

    /// Raw-value extraction, total: the exact code this value was
    /// constructed from.
    pub fn to_raw(self) -> (r: u8)
        ensures
            r == self.spec_code(),
    {
        match self {
            ServiceKind::Electricity => 0,
            ServiceKind::Gas => 1,
            ServiceKind::Water => 2,
            ServiceKind::Time => 3,
            ServiceKind::Pressure => 4,
            ServiceKind::Heat => 5,
            ServiceKind::Cooling => 6,
        }
    }
}

/// Law: numeric round-trip — every value is the one its own code names, so
/// re-validating an extracted code always succeeds and yields an equal value.
pub proof fn lemma_service_kind_roundtrip(v: ServiceKind)
    ensures
        ServiceKind::spec_of_code(v.spec_code()) == Some(v),
{
}

/// The consumption block a price applies to.
#[allow(non_camel_case_types)]
#[derive(Clone, Copy, Debug, PartialEq, Eq, Structural)]
pub enum ConsumptionBlockType {
    NotApplicable,
    Block_1,
    Block_2,
    Block_3,
    Block_4,
    Block_5,
    Block_6,
    Block_7,
    Block_8,
    Block_9,
    Block_10,
    Block_11,
    Block_12,
    Block_13,
    Block_14,
    Block_15,
    Block_16,
}

impl ConsumptionBlockType {
    /// The numeric code of this value on the wire.
    pub open spec fn spec_code(self) -> u8 {
        match self {
            ConsumptionBlockType::NotApplicable => 0,
            ConsumptionBlockType::Block_1 => 1,
            ConsumptionBlockType::Block_2 => 2,
            ConsumptionBlockType::Block_3 => 3,
            ConsumptionBlockType::Block_4 => 4,
            ConsumptionBlockType::Block_5 => 5,
            ConsumptionBlockType::Block_6 => 6,
            ConsumptionBlockType::Block_7 => 7,
            ConsumptionBlockType::Block_8 => 8,
            ConsumptionBlockType::Block_9 => 9,
            ConsumptionBlockType::Block_10 => 10,
            ConsumptionBlockType::Block_11 => 11,
            ConsumptionBlockType::Block_12 => 12,
            ConsumptionBlockType::Block_13 => 13,
            ConsumptionBlockType::Block_14 => 14,
            ConsumptionBlockType::Block_15 => 15,
            ConsumptionBlockType::Block_16 => 16,
        }
    }

    /// The value a code names, or nothing where the code is not listed.
    pub open spec fn spec_of_code(value: u8) -> Option<ConsumptionBlockType> {
        if value == 0 {
            Some(ConsumptionBlockType::NotApplicable)
        } else if value == 1 {
            Some(ConsumptionBlockType::Block_1)
        } else if value == 2 {
            Some(ConsumptionBlockType::Block_2)
        } else if value == 3 {
            Some(ConsumptionBlockType::Block_3)
        } else if value == 4 {
            Some(ConsumptionBlockType::Block_4)
        } else if value == 5 {
            Some(ConsumptionBlockType::Block_5)
        } else if value == 6 {
            Some(ConsumptionBlockType::Block_6)
        } else if value == 7 {
            Some(ConsumptionBlockType::Block_7)
        } else if value == 8 {
            Some(ConsumptionBlockType::Block_8)
        } else if value == 9 {
            Some(ConsumptionBlockType::Block_9)
        } else if value == 10 {
            Some(ConsumptionBlockType::Block_10)
        } else if value == 11 {
            Some(ConsumptionBlockType::Block_11)
        } else if value == 12 {
            Some(ConsumptionBlockType::Block_12)
        } else if value == 13 {
            Some(ConsumptionBlockType::Block_13)
        } else if value == 14 {
            Some(ConsumptionBlockType::Block_14)
        } else if value == 15 {
            Some(ConsumptionBlockType::Block_15)
        } else if value == 16 {
            Some(ConsumptionBlockType::Block_16)
        } else {
            None
        }
    }

    /// Sole constructor: succeeds exactly on the listed codes and returns
    /// the value of the code.
    pub fn new(value: u8) -> (r: Result<ConsumptionBlockType, OutOfRange>)
        ensures
            r is Ok <==> Self::spec_of_code(value) is Some,
            r matches Ok(v) ==> Self::spec_of_code(value) == Some(v),
    {
        match value {
            0 => Ok(ConsumptionBlockType::NotApplicable),
            1 => Ok(ConsumptionBlockType::Block_1),
            2 => Ok(ConsumptionBlockType::Block_2),
            3 => Ok(ConsumptionBlockType::Block_3),
            4 => Ok(ConsumptionBlockType::Block_4),
            5 => Ok(ConsumptionBlockType::Block_5),
            6 => Ok(ConsumptionBlockType::Block_6),
            7 => Ok(ConsumptionBlockType::Block_7),
            8 => Ok(ConsumptionBlockType::Block_8),
            9 => Ok(ConsumptionBlockType::Block_9),
            10 => Ok(ConsumptionBlockType::Block_10),
            11 => Ok(ConsumptionBlockType::Block_11),
            12 => Ok(ConsumptionBlockType::Block_12),
            13 => Ok(ConsumptionBlockType::Block_13),
            14 => Ok(ConsumptionBlockType::Block_14),
            15 => Ok(ConsumptionBlockType::Block_15),
            16 => Ok(ConsumptionBlockType::Block_16),
            _ => Err(OutOfRange),
        }
    }

    /// Raw-value extraction, total: the exact code this value was
    /// constructed from.
    pub fn to_raw(self) -> (r: u8)
        ensures
            r == self.spec_code(),
    {
        match self {
            ConsumptionBlockType::NotApplicable => 0,
            ConsumptionBlockType::Block_1 => 1,
            ConsumptionBlockType::Block_2 => 2,
            ConsumptionBlockType::Block_3 => 3,
            ConsumptionBlockType::Block_4 => 4,
            ConsumptionBlockType::Block_5 => 5,
            ConsumptionBlockType::Block_6 => 6,
            ConsumptionBlockType::Block_7 => 7,
            ConsumptionBlockType::Block_8 => 8,
            ConsumptionBlockType::Block_9 => 9,
            ConsumptionBlockType::Block_10 => 10,
            ConsumptionBlockType::Block_11 => 11,
            ConsumptionBlockType::Block_12 => 12,
            ConsumptionBlockType::Block_13 => 13,
            ConsumptionBlockType::Block_14 => 14,
            ConsumptionBlockType::Block_15 => 15,
            ConsumptionBlockType::Block_16 => 16,
        }
    }
}

/// Law: numeric round-trip — every value is the one its own code names, so
/// re-validating an extracted code always succeeds and yields an equal value.
pub proof fn lemma_consumption_block_type_roundtrip(v: ConsumptionBlockType)
    ensures
        ConsumptionBlockType::spec_of_code(v.spec_code()) == Some(v),
{
}

/// Which subscription kinds a resource supports.
#[derive(Clone, Copy, Debug, PartialEq, Eq, Structural)]
pub enum SubscribableType {
    NoSubscriptionsSupported,
    NonConditionalSubscriptions,
    ConditionalSubscriptions,
    AllSubscriptions,
}

impl SubscribableType {
    /// The numeric code of this value on the wire.
    pub open spec fn spec_code(self) -> u8 {
        match self {
            SubscribableType::NoSubscriptionsSupported => 0,
            SubscribableType::NonConditionalSubscriptions => 1,
            SubscribableType::ConditionalSubscriptions => 2,
            SubscribableType::AllSubscriptions => 3,
        }
    }

    /// The value a code names, or nothing where the code is not listed.
    pub open spec fn spec_of_code(value: u8) -> Option<SubscribableType> {
        if value == 0 {
            Some(SubscribableType::NoSubscriptionsSupported)
        } else if value == 1 {
            Some(SubscribableType::NonConditionalSubscriptions)
        } else if value == 2 {
            Some(SubscribableType::ConditionalSubscriptions)
        } else if value == 3 {
            Some(SubscribableType::AllSubscriptions)
        } else {
            None
        }
    }

    /// Sole constructor: succeeds exactly on the listed codes and returns
    /// the value of the code.
    pub fn new(value: u8) -> (r: Result<SubscribableType, OutOfRange>)
        ensures
            r is Ok <==> Self::spec_of_code(value) is Some,
            r matches Ok(v) ==> Self::spec_of_code(value) == Some(v),
    {
        match value {
            0 => Ok(SubscribableType::NoSubscriptionsSupported),
            1 => Ok(SubscribableType::NonConditionalSubscriptions),
            2 => Ok(SubscribableType::ConditionalSubscriptions),
            3 => Ok(SubscribableType::AllSubscriptions),
            _ => Err(OutOfRange),
        }
    }

    /// Raw-value extraction, total: the exact code this value was
    /// constructed from.
    pub fn to_raw(self) -> (r: u8)
        ensures
            r == self.spec_code(),
    {
        match self {
            SubscribableType::NoSubscriptionsSupported => 0,
            SubscribableType::NonConditionalSubscriptions => 1,
            SubscribableType::ConditionalSubscriptions => 2,
            SubscribableType::AllSubscriptions => 3,
        }
    }
}

/// Law: numeric round-trip — every value is the one its own code names, so
/// re-validating an extracted code always succeeds and yields an equal value.
pub proof fn lemma_subscribable_type_roundtrip(v: SubscribableType)
    ensures
        SubscribableType::spec_of_code(v.spec_code()) == Some(v),
{
}

/// The kind of curve a distributed energy resource control uses.
#[derive(Clone, Copy, Debug, PartialEq, Eq, Structural)]
pub enum DERCurveType {
    OpModFreqWatt,
    OpModHFRTMayTrip,
    OpModHFRTMustTrip,
    OpModHVRTMayTrip,
    OpModHVRTMomentaryCessation,
    OpModHVRTMustTrip,
    OpModLFRTMayTrip,
    OpModLFRTMustTrip,
    OpModLVRTMayTrip,
    OpModLVRTMomentaryCessation,
    OpModLVRTMustTrip,
    OpModVoltVar,
    OpModVoltWatt,
    OpModWattPF,
    OpModWattVar,
}

impl DERCurveType {
    /// The numeric code of this value on the wire.
    pub open spec fn spec_code(self) -> u8 {
        match self {
            DERCurveType::OpModFreqWatt => 0,
            DERCurveType::OpModHFRTMayTrip => 1,
            DERCurveType::OpModHFRTMustTrip => 2,
            DERCurveType::OpModHVRTMayTrip => 3,
            DERCurveType::OpModHVRTMomentaryCessation => 4,
            DERCurveType::OpModHVRTMustTrip => 5,
            DERCurveType::OpModLFRTMayTrip => 6,
            DERCurveType::OpModLFRTMustTrip => 7,
            DERCurveType::OpModLVRTMayTrip => 8,
            DERCurveType::OpModLVRTMomentaryCessation => 9,
            DERCurveType::OpModLVRTMustTrip => 10,
            DERCurveType::OpModVoltVar => 11,
            DERCurveType::OpModVoltWatt => 12,
            DERCurveType::OpModWattPF => 13,
            DERCurveType::OpModWattVar => 14,
        }
    }

    /// The value a code names, or nothing where the code is not listed.
    pub open spec fn spec_of_code(value: u8) -> Option<DERCurveType> {
        if value == 0 {
            Some(DERCurveType::OpModFreqWatt)
        } else if value == 1 {
            Some(DERCurveType::OpModHFRTMayTrip)
        } else if value == 2 {
            Some(DERCurveType::OpModHFRTMustTrip)
        } else if value == 3 {
            Some(DERCurveType::OpModHVRTMayTrip)
        } else if value == 4 {
            Some(DERCurveType::OpModHVRTMomentaryCessation)
        } else if value == 5 {
            Some(DERCurveType::OpModHVRTMustTrip)
        } else if value == 6 {
            Some(DERCurveType::OpModLFRTMayTrip)
        } else if value == 7 {
            Some(DERCurveType::OpModLFRTMustTrip)
        } else if value == 8 {
            Some(DERCurveType::OpModLVRTMayTrip)
        } else if value == 9 {
            Some(DERCurveType::OpModLVRTMomentaryCessation)
        } else if value == 10 {
            Some(DERCurveType::OpModLVRTMustTrip)
        } else if value == 11 {
            Some(DERCurveType::OpModVoltVar)
        } else if value == 12 {
            Some(DERCurveType::OpModVoltWatt)
        } else if value == 13 {
            Some(DERCurveType::OpModWattPF)
        } else if value == 14 {
            Some(DERCurveType::OpModWattVar)
        } else {
            None
        }
    }

    /// Sole constructor: succeeds exactly on the listed codes and returns
    /// the value of the code.
    pub fn new(value: u8) -> (r: Result<DERCurveType, OutOfRange>)
        ensures
            r is Ok <==> Self::spec_of_code(value) is Some,
            r matches Ok(v) ==> Self::spec_of_code(value) == Some(v),
    {
        match value {
            0 => Ok(DERCurveType::OpModFreqWatt),
            1 => Ok(DERCurveType::OpModHFRTMayTrip),
            2 => Ok(DERCurveType::OpModHFRTMustTrip),
            3 => Ok(DERCurveType::OpModHVRTMayTrip),
            4 => Ok(DERCurveType::OpModHVRTMomentaryCessation),
            5 => Ok(DERCurveType::OpModHVRTMustTrip),
            6 => Ok(DERCurveType::OpModLFRTMayTrip),
            7 => Ok(DERCurveType::OpModLFRTMustTrip),
            8 => Ok(DERCurveType::OpModLVRTMayTrip),
            9 => Ok(DERCurveType::OpModLVRTMomentaryCessation),
            10 => Ok(DERCurveType::OpModLVRTMustTrip),
            11 => Ok(DERCurveType::OpModVoltVar),
            12 => Ok(DERCurveType::OpModVoltWatt),
            13 => Ok(DERCurveType::OpModWattPF),
            14 => Ok(DERCurveType::OpModWattVar),
            _ => Err(OutOfRange),
        }
    }

    /// Raw-value extraction, total: the exact code this value was
    /// constructed from.
    pub fn to_raw(self) -> (r: u8)
        ensures
            r == self.spec_code(),
    {
        match self {
            DERCurveType::OpModFreqWatt => 0,
            DERCurveType::OpModHFRTMayTrip => 1,
            DERCurveType::OpModHFRTMustTrip => 2,
            DERCurveType::OpModHVRTMayTrip => 3,
            DERCurveType::OpModHVRTMomentaryCessation => 4,
            DERCurveType::OpModHVRTMustTrip => 5,
            DERCurveType::OpModLFRTMayTrip => 6,
            DERCurveType::OpModLFRTMustTrip => 7,
            DERCurveType::OpModLVRTMayTrip => 8,
            DERCurveType::OpModLVRTMomentaryCessation => 9,
            DERCurveType::OpModLVRTMustTrip => 10,
            DERCurveType::OpModVoltVar => 11,
            DERCurveType::OpModVoltWatt => 12,
            DERCurveType::OpModWattPF => 13,
            DERCurveType::OpModWattVar => 14,
        }
    }
}

/// Law: numeric round-trip — every value is the one its own code names, so
/// re-validating an extracted code always succeeds and yields an equal value.
pub proof fn lemma_dercurve_type_roundtrip(v: DERCurveType)
    ensures
        DERCurveType::spec_of_code(v.spec_code()) == Some(v),
{
}

/// The kind of quantity a reading set measures.
#[derive(Clone, Copy, Debug, PartialEq, Eq, Structural)]
pub enum KindType {
    NotApplicable,
    Currency,
    Demand,
    Energy,
    Power,
}

impl KindType {
    /// The numeric code of this value on the wire.
    pub open spec fn spec_code(self) -> u8 {
        match self {
            KindType::NotApplicable => 0,
            KindType::Currency => 3,
            KindType::Demand => 8,
            KindType::Energy => 12,
            KindType::Power => 37,
        }
    }

    /// The value a code names, or nothing where the code is not listed.
    pub open spec fn spec_of_code(value: u8) -> Option<KindType> {
        if value == 0 {
            Some(KindType::NotApplicable)
        } else if value == 3 {
            Some(KindType::Currency)
        } else if value == 8 {
            Some(KindType::Demand)
        } else if value == 12 {
            Some(KindType::Energy)
        } else if value == 37 {
            Some(KindType::Power)
        } else {
            None
        }
    }

    /// Sole constructor: succeeds exactly on the listed codes and returns
    /// the value of the code.
    pub fn new(value: u8) -> (r: Result<KindType, OutOfRange>)
        ensures
            r is Ok <==> Self::spec_of_code(value) is Some,
            r matches Ok(v) ==> Self::spec_of_code(value) == Some(v),
    {
        match value {
            0 => Ok(KindType::NotApplicable),
            3 => Ok(KindType::Currency),
            8 => Ok(KindType::Demand),
            12 => Ok(KindType::Energy),
            37 => Ok(KindType::Power),
            _ => Err(OutOfRange),
        }
    }

    /// Raw-value extraction, total: the exact code this value was
    /// constructed from.
    pub fn to_raw(self) -> (r: u8)
        ensures
            r == self.spec_code(),
    {
        match self {
            KindType::NotApplicable => 0,
            KindType::Currency => 3,
            KindType::Demand => 8,
            KindType::Energy => 12,
            KindType::Power => 37,
        }
    }
}

/// Law: numeric round-trip — every value is the one its own code names, so
/// re-validating an extracted code always succeeds and yields an equal value.
pub proof fn lemma_kind_type_roundtrip(v: KindType)
    ensures
        KindType::spec_of_code(v.spec_code()) == Some(v),
{
}

/// Which phases a reading applies to.
#[allow(non_camel_case_types)]
#[derive(Clone, Copy, Debug, PartialEq, Eq, Structural)]
pub enum PhaseCode {
    NotApplicable,
    Phase_C,
    Phase_CN,
    Phase_CA,
    Phase_B,
    Phase_BN,
    Phase_BC,
    Phase_A,
    Phase_AN,
    Phase_AB,
    Phase_ABC,
}

impl PhaseCode {
    /// The numeric code of this value on the wire.
    pub open spec fn spec_code(self) -> u8 {
        match self {
            PhaseCode::NotApplicable => 0,
            PhaseCode::Phase_C => 32,
            PhaseCode::Phase_CN => 33,
            PhaseCode::Phase_CA => 40,
            PhaseCode::Phase_B => 64,
            PhaseCode::Phase_BN => 65,
            PhaseCode::Phase_BC => 66,
            PhaseCode::Phase_A => 128,
            PhaseCode::Phase_AN => 129,
            PhaseCode::Phase_AB => 132,
            PhaseCode::Phase_ABC => 224,
        }
    }

    /// The value a code names, or nothing where the code is not listed.
    pub open spec fn spec_of_code(value: u8) -> Option<PhaseCode> {
        if value == 0 {
            Some(PhaseCode::NotApplicable)
        } else if value == 32 {
            Some(PhaseCode::Phase_C)
        } else if value == 33 {
            Some(PhaseCode::Phase_CN)
        } else if value == 40 {
            Some(PhaseCode::Phase_CA)
        } else if value == 64 {
            Some(PhaseCode::Phase_B)
        } else if value == 65 {
            Some(PhaseCode::Phase_BN)
        } else if value == 66 {
            Some(PhaseCode::Phase_BC)
        } else if value == 128 {
            Some(PhaseCode::Phase_A)
        } else if value == 129 {
            Some(PhaseCode::Phase_AN)
        } else if value == 132 {
            Some(PhaseCode::Phase_AB)
        } else if value == 224 {
            Some(PhaseCode::Phase_ABC)
        } else {
            None
        }
    }

    /// Sole constructor: succeeds exactly on the listed codes and returns
    /// the value of the code.
    pub fn new(value: u8) -> (r: Result<PhaseCode, OutOfRange>)
        ensures
            r is Ok <==> Self::spec_of_code(value) is Some,
            r matches Ok(v) ==> Self::spec_of_code(value) == Some(v),
    {
        match value {
            0 => Ok(PhaseCode::NotApplicable),
            32 => Ok(PhaseCode::Phase_C),
            33 => Ok(PhaseCode::Phase_CN),
            40 => Ok(PhaseCode::Phase_CA),
            64 => Ok(PhaseCode::Phase_B),
            65 => Ok(PhaseCode::Phase_BN),
            66 => Ok(PhaseCode::Phase_BC),
            128 => Ok(PhaseCode::Phase_A),
            129 => Ok(PhaseCode::Phase_AN),
            132 => Ok(PhaseCode::Phase_AB),
            224 => Ok(PhaseCode::Phase_ABC),
            _ => Err(OutOfRange),
        }
    }

    /// Raw-value extraction, total: the exact code this value was
    /// constructed from.
    pub fn to_raw(self) -> (r: u8)
        ensures
            r == self.spec_code(),
    {
        match self {
            PhaseCode::NotApplicable => 0,
            PhaseCode::Phase_C => 32,
            PhaseCode::Phase_CN => 33,
            PhaseCode::Phase_CA => 40,
            PhaseCode::Phase_B => 64,
            PhaseCode::Phase_BN => 65,
            PhaseCode::Phase_BC => 66,
            PhaseCode::Phase_A => 128,
            PhaseCode::Phase_AN => 129,
            PhaseCode::Phase_AB => 132,
            PhaseCode::Phase_ABC => 224,
        }
    }
}

/// Law: numeric round-trip — every value is the one its own code names, so
/// re-validating an extracted code always succeeds and yields an equal value.
pub proof fn lemma_phase_code_roundtrip(v: PhaseCode)
    ensures
        PhaseCode::spec_of_code(v.spec_code()) == Some(v),
{
}

} // verus!
