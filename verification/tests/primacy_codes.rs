use energy_types::primacy::PrimacyType;
use energy_types::OutOfRange;

#[test]
fn named_codes_construct_named_variants() {
    assert_eq!(PrimacyType::new(0).unwrap(), PrimacyType::HEMS);
    assert_eq!(PrimacyType::new(1).unwrap(), PrimacyType::CPSP);
    assert_eq!(PrimacyType::new(2).unwrap(), PrimacyType::NCSP);
}

#[test]
fn reserved_codes_are_rejected() {
    assert_eq!(PrimacyType::new(3), Err(OutOfRange));
    assert_eq!(PrimacyType::new(10), Err(OutOfRange));
    assert_eq!(PrimacyType::new(64), Err(OutOfRange));
}

#[test]
fn codes_above_user_range_are_rejected() {
    assert_eq!(PrimacyType::new(192), Err(OutOfRange));
    assert_eq!(PrimacyType::new(200), Err(OutOfRange));
    assert_eq!(PrimacyType::new(255), Err(OutOfRange));
}

#[test]
fn user_defined_codes_round_trip() {
    let p = PrimacyType::new(150).unwrap();
    assert!(matches!(p, PrimacyType::User(150)));
    assert_eq!(p.get_num_value(), 150);
    assert_eq!(p.format_meaning().as_str(), "User-defined: 150");
    let lo = PrimacyType::new(65).unwrap();
    assert_eq!(lo.get_num_value(), 65);
    let hi = PrimacyType::new(191).unwrap();
    assert_eq!(hi.get_num_value(), 191);
}

#[test]
fn named_variants_round_trip() {
    for v in [0u8, 1, 2] {
        let p = PrimacyType::new(v).unwrap();
        assert_eq!(p.get_num_value(), v);
        assert_eq!(PrimacyType::new(p.get_num_value()).unwrap(), p);
    }
    let u = PrimacyType::new(100).unwrap();
    assert_eq!(PrimacyType::new(u.get_num_value()).unwrap(), u);
}

#[test]
fn named_variants_have_fixed_meanings() {
    assert_eq!(
        PrimacyType::new(0).unwrap().format_meaning().as_str(),
        "In-home energy management system: 0"
    );
    assert_eq!(
        PrimacyType::new(1).unwrap().format_meaning().as_str(),
        "Contracted premises service provider: 1"
    );
    assert_eq!(
        PrimacyType::new(2).unwrap().format_meaning().as_str(),
        "Non-contractual service provider: 2"
    );
}
