use energy_types::flags::DERControlType;
use energy_types::flags::DeviceCategoryType;
use energy_types::flags::RoleFlagsType;
use energy_types::flags::CHARGE_MODE;
use energy_types::flags::ELECTRIC_VEHICLE;
use energy_types::flags::IS_DER;
use energy_types::flags::IS_MIRROR;
use energy_types::flags::IS_PEV;
use energy_types::flags::IS_SUBMETER;
use energy_types::flags::OP_MOD_FIXED_W;
use energy_types::flags::PHOTOVOLTAIC_SYSTEM;

#[test]
fn role_flags_union_and_membership() {
    let der = RoleFlagsType::from_raw(IS_DER);
    let submeter = RoleFlagsType::from_raw(IS_SUBMETER);
    let both = der.union(submeter);
    assert_eq!(both.to_raw(), 72);
    assert!(both.contains(der));
    assert!(both.contains(submeter));
    assert!(!both.contains(RoleFlagsType::from_raw(IS_PEV)));
}

#[test]
fn role_flags_intersection() {
    let a = RoleFlagsType::from_raw(IS_DER | IS_MIRROR);
    let b = RoleFlagsType::from_raw(IS_DER | IS_SUBMETER);
    assert_eq!(a.intersect(b).to_raw(), IS_DER);
    let disjoint = RoleFlagsType::from_raw(IS_MIRROR).intersect(RoleFlagsType::from_raw(IS_PEV));
    assert_eq!(disjoint.to_raw(), 0);
}

#[test]
fn role_flags_any_pattern_round_trips() {
    for bits in [0u16, 1, 72, 0x00FF, 0xFFFF] {
        assert_eq!(RoleFlagsType::from_raw(bits).to_raw(), bits);
    }
}

#[test]
fn device_category_operations() {
    let ev = DeviceCategoryType::from_raw(ELECTRIC_VEHICLE);
    let pv = DeviceCategoryType::from_raw(PHOTOVOLTAIC_SYSTEM);
    let both = ev.union(pv);
    assert_eq!(both.to_raw(), ELECTRIC_VEHICLE | PHOTOVOLTAIC_SYSTEM);
    assert!(both.contains(ev));
    assert!(!ev.contains(pv));
    assert_eq!(both.intersect(pv).to_raw(), PHOTOVOLTAIC_SYSTEM);
}

#[test]
fn der_control_operations() {
    let charge = DERControlType::from_raw(CHARGE_MODE);
    let fixed_w = DERControlType::from_raw(OP_MOD_FIXED_W);
    let both = charge.union(fixed_w);
    assert_eq!(both.to_raw(), 129);
    assert!(both.contains(charge));
    assert!(!charge.contains(fixed_w));
    assert_eq!(DERControlType::from_raw(0xFFFF_FFFF).to_raw(), 0xFFFF_FFFF);
}
