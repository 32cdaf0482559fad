use lm_sensors::bus::Bus;
use lm_sensors::chip::ChipName;
use lm_sensors::feature::{FeatureId, Kind};
use lm_sensors::sub_feature::SubFeatureId;
use lm_sensors::sub_feature::{value_of_raw, Flags, COMPUTE_MAPPING, MODE_R, MODE_W};
use lm_sensors::value::Value;
use lm_sensors::errors::{Error, IoErrorKind};

#[test]
fn feature_kind() {
    let k0 = Kind::default();
    assert_eq!(k0, Kind::Unknown);
    assert_eq!(k0.as_raw(), 2147483647);
    assert!(!k0.name().is_empty());

    for (k, n, s) in [
        (Kind::Voltage, 0, "Voltage"),
        (Kind::Fan, 1, "Fan"),
        (Kind::Temperature, 2, "Temperature"),
        (Kind::Power, 3, "Power"),
        (Kind::Energy, 4, "Energy"),
        (Kind::Current, 5, "Current"),
        (Kind::Humidity, 6, "Humidity"),
        (Kind::VoltageID, 16, "VoltageID"),
        (Kind::Intrusion, 17, "Intrusion"),
        (Kind::BeepEnable, 24, "BeepEnable"),
        (Kind::Unknown, 2147483647, "Unknown"),
    ] {
        assert_eq!(Kind::from_raw(n).unwrap(), k);
        assert_eq!(n, k.as_raw());
        assert_eq!(k.name(), s);
    }
    assert!(Kind::from_raw(7).is_none());
    assert!(Kind::from_raw(25).is_none());
}

#[test]
fn flags() {
    assert_eq!(Flags::from_bits(MODE_R | MODE_W).unwrap().bits(), 3);
    assert!(Flags::from_bits(8).is_none());
    let f = Flags::from_bits(MODE_R | COMPUTE_MAPPING).unwrap();
    assert!(f.is_readable());
    assert!(!f.is_writable());
    assert!(f.computes_mapping());
    assert!(f.contains(Flags::readable()));
    assert!(!f.contains(Flags::writable()));
    assert!(Flags::all().contains(Flags::compute_mapping()));
    assert_eq!(Flags::from_bits_truncate(0xFF).bits(), 7);
    assert_eq!(Flags::empty().bits(), 0);
}

#[test]
fn sub_feature_value_of_raw() {
    assert_eq!(value_of_raw(512, 25.5f64.to_bits()), Ok(Value::TemperatureInput(25.5f64.to_bits())));
    let invalid = Err(Error::IO { operation: "Value::from_raw", kind: IoErrorKind::InvalidData });
    assert_eq!(value_of_raw(12345, 1.0f64.to_bits()), invalid);
    assert_eq!(value_of_raw(645, 9.0f64.to_bits()), invalid);
}

fn feature(number: i32, name: &str) -> FeatureId {
    FeatureId {
        chip: ChipName::new(Some(b"coretemp".to_vec()), Bus::new_raw(1, 0), 0, None),
        number,
        raw_kind: 2,
        name: Some(name.as_bytes().to_vec()),
    }
}

fn sub_feature(number: i32, flags: u32) -> SubFeatureId {
    SubFeatureId {
        feature: feature(0, "temp1"),
        number,
        mapping: 0,
        raw_kind: 512,
        raw_flags: flags,
        name: Some(b"temp1_input".to_vec()),
    }
}

#[test]
fn feature_identity() {
    assert!(feature(0, "temp1").same_as(&feature(0, "temp1")));
    assert!(!feature(0, "temp1").same_as(&feature(1, "temp1")));
    assert!(!feature(0, "temp1").same_as(&feature(0, "temp2")));
    assert_eq!(feature(0, "temp1").kind(), Some(Kind::Temperature));
}

#[test]
fn sub_feature_identity() {
    assert!(sub_feature(3, 1).same_as(&sub_feature(3, 1)));
    assert!(!sub_feature(3, 1).same_as(&sub_feature(4, 1)));
    assert!(!sub_feature(3, 1).same_as(&sub_feature(3, 3)));
    assert_eq!(sub_feature(3, 1).kind(), Some(lm_sensors::value::Kind::TemperatureInput));
    assert_eq!(sub_feature(3, 5).flags().unwrap().bits(), 5);
    assert!(sub_feature(3, 9).flags().is_none());
}
