use energy_types::aliases::Int48;
use energy_types::aliases::UInt40;
use energy_types::aliases::UInt48;
use energy_types::records::DateTimeInterval;
use energy_types::records::GPSLocationType;
use energy_types::records::RealEnergy;
use energy_types::records::SignedRealEnergy;
use energy_types::records::UnitValueType;
use energy_types::uom::UomType;
use energy_types::OutOfRange;

#[test]
fn date_time_interval_keeps_its_fields() {
    let i = DateTimeInterval::new(900, 1700000000);
    assert_eq!(i.duration, 900);
    assert_eq!(i.start, 1700000000);
}

#[test]
fn gps_location_accepts_bounded_text() {
    let g = GPSLocationType::new(String::from("37.7749"), String::from("-122.4194")).unwrap();
    assert_eq!(g.lat().as_str(), "37.7749");
    assert_eq!(g.lon().as_str(), "-122.4194");
}

#[test]
fn gps_location_rejects_over_long_text() {
    let long = "x".repeat(33);
    assert_eq!(
        GPSLocationType::new(long.clone(), String::from("0")),
        Err(OutOfRange)
    );
    assert_eq!(GPSLocationType::new(String::from("0"), long), Err(OutOfRange));
    let edge = "y".repeat(32);
    assert!(GPSLocationType::new(edge.clone(), edge).is_ok());
}

#[test]
fn real_energy_validates_every_field() {
    let e = RealEnergy::new(3, 1000).unwrap();
    assert_eq!(e.multiplier.to_raw(), 3);
    assert_eq!(e.value.to_raw(), 1000);
    assert_eq!(RealEnergy::new(10, 1000), Err(OutOfRange));
    assert_eq!(RealEnergy::new(3, 281474976710656), Err(OutOfRange));
    assert!(RealEnergy::new(3, 281474976710655).is_ok());
}

#[test]
fn signed_real_energy_validates_every_field() {
    let e = SignedRealEnergy::new(-3, -140737488355328).unwrap();
    assert_eq!(e.multiplier.to_raw(), -3);
    assert_eq!(e.value.to_raw(), -140737488355328);
    assert_eq!(SignedRealEnergy::new(-10, 0), Err(OutOfRange));
    assert_eq!(SignedRealEnergy::new(0, -140737488355329), Err(OutOfRange));
    assert_eq!(SignedRealEnergy::new(0, 140737488355328), Err(OutOfRange));
}

#[test]
fn unit_value_validates_every_field() {
    let u = UnitValueType::new(0, 38, -1500).unwrap();
    assert_eq!(u.multiplier.to_raw(), 0);
    assert_eq!(u.unit, UomType::W);
    assert_eq!(u.value.to_raw(), -1500);
    assert_eq!(UnitValueType::new(12, 38, 0), Err(OutOfRange));
    assert_eq!(UnitValueType::new(0, 4, 0), Err(OutOfRange));
    assert_eq!(UnitValueType::new(0, 38, 140737488355328), Err(OutOfRange));
}

#[test]
fn uom_codes_round_trip_and_reject() {
    for code in [0u8, 5, 23, 38, 72, 106, 128, 169] {
        let u = UomType::new(code).unwrap();
        assert_eq!(u.to_raw(), code);
        assert_eq!(UomType::new(u.to_raw()).unwrap(), u);
    }
    assert_eq!(UomType::new(1), Err(OutOfRange));
    assert_eq!(UomType::new(4), Err(OutOfRange));
    assert_eq!(UomType::new(255), Err(OutOfRange));
}

#[test]
fn odd_width_integers_enforce_their_width() {
    let a = UInt40::new(1099511627775).unwrap();
    assert_eq!(a.to_raw(), 1099511627775);
    assert_eq!(UInt40::new(1099511627776), Err(OutOfRange));
    let b = UInt48::new(0).unwrap();
    assert_eq!(b.to_raw(), 0);
    assert_eq!(UInt48::new(281474976710656), Err(OutOfRange));
    let c = Int48::new(140737488355327).unwrap();
    assert_eq!(c.to_raw(), 140737488355327);
    assert_eq!(Int48::new(140737488355328), Err(OutOfRange));
    assert_eq!(Int48::new(UInt48::new(7).unwrap().to_raw() as i64).unwrap().to_raw(), 7);
}
