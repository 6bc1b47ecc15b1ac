use energy_types::codes::AccumlationBehaviourType;
use energy_types::codes::ApplianceLoadReductionType;
use energy_types::codes::CommodityType;
use energy_types::codes::ConsumptionBlockType;
use energy_types::codes::DERCurveType;
use energy_types::codes::DataQualifierType;
use energy_types::codes::FlowDirectionType;
use energy_types::codes::KindType;
use energy_types::codes::PhaseCode;
use energy_types::codes::ServiceKind;
use energy_types::codes::SubscribableType;
use energy_types::codes::TOUType;
use energy_types::codes::UnitType;
use energy_types::OutOfRange;

#[test]
fn data_qualifier_codes() {
    assert_eq!(DataQualifierType::new(0).unwrap(), DataQualifierType::NotApplicable);
    assert_eq!(DataQualifierType::new(29).unwrap().to_raw(), 29);
    assert_eq!(DataQualifierType::new(1), Err(OutOfRange));
    assert_eq!(DataQualifierType::new(31), Err(OutOfRange));
}

#[test]
fn commodity_codes() {
    assert_eq!(CommodityType::new(7).unwrap(), CommodityType::NaturalGas);
    assert_eq!(CommodityType::new(13).unwrap().to_raw(), 13);
    assert_eq!(CommodityType::new(3), Err(OutOfRange));
}

#[test]
fn flow_direction_codes() {
    assert_eq!(FlowDirectionType::new(19).unwrap(), FlowDirectionType::Reverse);
    assert_eq!(FlowDirectionType::new(2), Err(OutOfRange));
}

#[test]
fn tou_codes() {
    assert_eq!(TOUType::new(1).unwrap(), TOUType::TOU_A);
    assert_eq!(TOUType::new(15).unwrap(), TOUType::TOU_O);
    assert_eq!(TOUType::new(16), Err(OutOfRange));
}

#[test]
fn unit_codes() {
    assert_eq!(UnitType::new(0).unwrap(), UnitType::kWh);
    assert_eq!(UnitType::new(12).unwrap(), UnitType::Unitless);
    assert_eq!(UnitType::new(13), Err(OutOfRange));
}

#[test]
fn accumulation_behaviour_codes() {
    assert_eq!(AccumlationBehaviourType::new(3).unwrap(), AccumlationBehaviourType::Cumulative);
    assert_eq!(AccumlationBehaviourType::new(5), Err(OutOfRange));
}

#[test]
fn appliance_load_reduction_codes() {
    assert_eq!(
        ApplianceLoadReductionType::new(0).unwrap(),
        ApplianceLoadReductionType::DelayApplianceLoad
    );
    assert_eq!(ApplianceLoadReductionType::new(2), Err(OutOfRange));
}

#[test]
fn service_kind_codes() {
    assert_eq!(ServiceKind::new(6).unwrap(), ServiceKind::Cooling);
    assert_eq!(ServiceKind::new(7), Err(OutOfRange));
}

#[test]
fn consumption_block_codes() {
    assert_eq!(ConsumptionBlockType::new(16).unwrap(), ConsumptionBlockType::Block_16);
    assert_eq!(ConsumptionBlockType::new(17), Err(OutOfRange));
}

#[test]
fn subscribable_codes() {
    assert_eq!(SubscribableType::new(3).unwrap(), SubscribableType::AllSubscriptions);
    assert_eq!(SubscribableType::new(4), Err(OutOfRange));
}

#[test]
fn der_curve_codes() {
    assert_eq!(DERCurveType::new(11).unwrap(), DERCurveType::OpModVoltVar);
    assert_eq!(DERCurveType::new(15), Err(OutOfRange));
}

#[test]
fn kind_codes() {
    assert_eq!(KindType::new(37).unwrap(), KindType::Power);
    assert_eq!(KindType::new(1), Err(OutOfRange));
}

#[test]
fn phase_codes() {
    assert_eq!(PhaseCode::new(224).unwrap(), PhaseCode::Phase_ABC);
    assert_eq!(PhaseCode::new(129).unwrap().to_raw(), 129);
    assert_eq!(PhaseCode::new(1), Err(OutOfRange));
    assert_eq!(PhaseCode::new(255), Err(OutOfRange));
}

#[test]
fn closed_codes_round_trip() {
    for code in [0u8, 2, 8, 9, 12, 29, 30] {
        let v = DataQualifierType::new(code).unwrap();
        assert_eq!(DataQualifierType::new(v.to_raw()).unwrap(), v);
    }
    for code in [0u8, 32, 33, 40, 64, 65, 66, 128, 129, 132, 224] {
        let v = PhaseCode::new(code).unwrap();
        assert_eq!(PhaseCode::new(v.to_raw()).unwrap(), v);
    }
}
