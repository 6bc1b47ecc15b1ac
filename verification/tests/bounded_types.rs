use energy_types::bounded::OneHourRangeType;
use energy_types::bounded::PINType;
use energy_types::bounded::PerCent;
use energy_types::bounded::PowerOfTenMultiplierType;
use energy_types::bounded::SignedPerCent;
use energy_types::OutOfRange;

#[test]
fn percent_display_is_exact() {
    let p = PerCent::new(102).unwrap();
    assert_eq!(p.display().as_str(), "1.02%");
}

#[test]
fn signed_percent_display_is_exact() {
    let p = SignedPerCent::new(-250).unwrap();
    assert_eq!(p.display().as_str(), "-2.50%");
}

#[test]
fn multiplier_display_and_reject() {
    let m = PowerOfTenMultiplierType::new(3).unwrap();
    assert_eq!(m.display().as_str(), "x 3");
    assert_eq!(PowerOfTenMultiplierType::new(10), Err(OutOfRange));
}

#[test]
fn one_hour_range_round_trip_inside_range() {
    for v in [-3600i16, -1, 0, 1, 3600] {
        let t = OneHourRangeType::new(v).unwrap();
        assert_eq!(t.to_raw(), v);
    }
}

#[test]
fn one_hour_range_rejects_outside_range() {
    assert_eq!(OneHourRangeType::new(-3601), Err(OutOfRange));
    assert_eq!(OneHourRangeType::new(3601), Err(OutOfRange));
    assert_eq!(OneHourRangeType::new(i16::MIN), Err(OutOfRange));
    assert_eq!(OneHourRangeType::new(i16::MAX), Err(OutOfRange));
}

#[test]
fn one_hour_range_displays_raw_integer() {
    assert_eq!(OneHourRangeType::new(-3600).unwrap().display().as_str(), "-3600");
    assert_eq!(OneHourRangeType::new(0).unwrap().display().as_str(), "0");
    assert_eq!(OneHourRangeType::new(42).unwrap().display().as_str(), "42");
}

#[test]
fn percent_round_trip_and_bounds() {
    for v in [0u16, 1, 102, 9999, 10000] {
        let p = PerCent::new(v).unwrap();
        assert_eq!(p.to_raw(), v);
    }
    assert_eq!(PerCent::new(10001), Err(OutOfRange));
    assert_eq!(PerCent::new(u16::MAX), Err(OutOfRange));
}

#[test]
fn percent_display_edges() {
    assert_eq!(PerCent::new(0).unwrap().display().as_str(), "0.00%");
    assert_eq!(PerCent::new(10000).unwrap().display().as_str(), "100.00%");
    assert_eq!(PerCent::new(10).unwrap().display().as_str(), "0.10%");
    assert_eq!(PerCent::new(1).unwrap().display().as_str(), "0.01%");
}

#[test]
fn signed_percent_round_trip_and_bounds() {
    for v in [-10000i16, -250, 0, 250, 10000] {
        let p = SignedPerCent::new(v).unwrap();
        assert_eq!(p.to_raw(), v);
    }
    assert_eq!(SignedPerCent::new(-10001), Err(OutOfRange));
    assert_eq!(SignedPerCent::new(10001), Err(OutOfRange));
}

#[test]
fn signed_percent_display_edges() {
    assert_eq!(SignedPerCent::new(-10000).unwrap().display().as_str(), "-100.00%");
    assert_eq!(SignedPerCent::new(10000).unwrap().display().as_str(), "100.00%");
    assert_eq!(SignedPerCent::new(-1).unwrap().display().as_str(), "-0.01%");
    assert_eq!(SignedPerCent::new(0).unwrap().display().as_str(), "0.00%");
}

#[test]
fn pin_round_trip_and_bounds() {
    for v in [0u32, 1, 123456, 999999] {
        let p = PINType::new(v).unwrap();
        assert_eq!(p.to_raw(), v);
    }
    assert_eq!(PINType::new(1000000), Err(OutOfRange));
    assert_eq!(PINType::new(u32::MAX), Err(OutOfRange));
}

#[test]
fn pin_displays_without_padding() {
    assert_eq!(PINType::new(0).unwrap().display().as_str(), "0");
    assert_eq!(PINType::new(7).unwrap().display().as_str(), "7");
    assert_eq!(PINType::new(999999).unwrap().display().as_str(), "999999");
}

#[test]
fn multiplier_round_trip_and_bounds() {
    for v in [-9i8, -1, 0, 1, 9] {
        let m = PowerOfTenMultiplierType::new(v).unwrap();
        assert_eq!(m.to_raw(), v);
    }
    assert_eq!(PowerOfTenMultiplierType::new(-10), Err(OutOfRange));
    assert_eq!(PowerOfTenMultiplierType::new(i8::MIN), Err(OutOfRange));
    assert_eq!(PowerOfTenMultiplierType::new(i8::MAX), Err(OutOfRange));
}

#[test]
fn multiplier_display_negative() {
    assert_eq!(PowerOfTenMultiplierType::new(-9).unwrap().display().as_str(), "x -9");
    assert_eq!(PowerOfTenMultiplierType::new(0).unwrap().display().as_str(), "x 0");
}

#[test]
fn multiplier_default_is_neutral() {
    assert_eq!(PowerOfTenMultiplierType::default().to_raw(), 0);
}

#[test]
fn revalidating_valid_values_succeeds_and_is_equal() {
    let t = OneHourRangeType::new(-1200).unwrap();
    assert_eq!(OneHourRangeType::new(t.to_raw()).unwrap(), t);
    let p = PerCent::new(102).unwrap();
    assert_eq!(PerCent::new(p.to_raw()).unwrap(), p);
    let s = SignedPerCent::new(-250).unwrap();
    assert_eq!(SignedPerCent::new(s.to_raw()).unwrap(), s);
    let n = PINType::new(424242).unwrap();
    assert_eq!(PINType::new(n.to_raw()).unwrap(), n);
    let m = PowerOfTenMultiplierType::new(-3).unwrap();
    assert_eq!(PowerOfTenMultiplierType::new(m.to_raw()).unwrap(), m);
}
