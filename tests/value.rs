use lm_sensors::value::{DisplayForm, FlagWord, Kind, TemperatureSensorKind, Unit, Value};

static KIND_LIST: [(Kind, u32, Unit, bool, &str); 87] = [
    (
        Kind::VoltageInput,
        0,
        Unit::Volt,
        false,
        "VoltageInput",
    ),
    (
        Kind::VoltageMinimum,
        1,
        Unit::Volt,
        false,
        "VoltageMinimum",
    ),
    (
        Kind::VoltageMaximum,
        2,
        Unit::Volt,
        false,
        "VoltageMaximum",
    ),
    (
        Kind::VoltageLCritical,
        3,
        Unit::Volt,
        false,
        "VoltageLCritical",
    ),
    (
        Kind::VoltageCritical,
        4,
        Unit::Volt,
        false,
        "VoltageCritical",
    ),
    (
        Kind::VoltageAverage,
        5,
        Unit::Volt,
        false,
        "VoltageAverage",
    ),
    (
        Kind::VoltageLowest,
        6,
        Unit::Volt,
        false,
        "VoltageLowest",
    ),
    (
        Kind::VoltageHighest,
        7,
        Unit::Volt,
        false,
        "VoltageHighest",
    ),
    (
        Kind::VoltageAlarm,
        128,
        Unit::Unitless,
        true,
        "VoltageAlarm",
    ),
    (
        Kind::VoltageMinimumAlarm,
        129,
        Unit::Unitless,
        true,
        "VoltageMinimumAlarm",
    ),
    (
        Kind::VoltageMaximumAlarm,
        130,
        Unit::Unitless,
        true,
        "VoltageMaximumAlarm",
    ),
    (
        Kind::VoltageBeep,
        131,
        Unit::Unitless,
        true,
        "VoltageBeep",
    ),
    (
        Kind::VoltageLCriticalAlarm,
        132,
        Unit::Unitless,
        true,
        "VoltageLCriticalAlarm",
    ),
    (
        Kind::VoltageCriticalAlarm,
        133,
        Unit::Unitless,
        true,
        "VoltageCriticalAlarm",
    ),
    (
        Kind::FanInput,
        256,
        Unit::RotationPerMinute,
        false,
        "FanInput",
    ),
    (
        Kind::FanMinimum,
        257,
        Unit::RotationPerMinute,
        false,
        "FanMinimum",
    ),
    (
        Kind::FanMaximum,
        258,
        Unit::RotationPerMinute,
        false,
        "FanMaximum",
    ),
    (
        Kind::FanAlarm,
        384,
        Unit::Unitless,
        true,
        "FanAlarm",
    ),
    (
        Kind::FanFault,
        385,
        Unit::Unitless,
        true,
        "FanFault",
    ),
    (
        Kind::FanDivisor,
        386,
        Unit::Unitless,
        false,
        "FanDivisor",
    ),
    (
        Kind::FanBeep,
        387,
        Unit::Unitless,
        true,
        "FanBeep",
    ),
    (
        Kind::FanPulses,
        388,
        Unit::Unitless,
        false,
        "FanPulses",
    ),
    (
        Kind::FanMinimumAlarm,
        389,
        Unit::Unitless,
        true,
        "FanMinimumAlarm",
    ),
    (
        Kind::FanMaximumAlarm,
        390,
        Unit::Unitless,
        true,
        "FanMaximumAlarm",
    ),
    (
        Kind::TemperatureInput,
        512,
        Unit::Celcius,
        false,
        "TemperatureInput",
    ),
    (
        Kind::TemperatureMaximum,
        513,
        Unit::Celcius,
        false,
        "TemperatureMaximum",
    ),
    (
        Kind::TemperatureMaximumHysteresis,
        514,
        Unit::Celcius,
        false,
        "TemperatureMaximumHysteresis",
    ),
    (
        Kind::TemperatureMinimum,
        515,
        Unit::Celcius,
        false,
        "TemperatureMinimum",
    ),
    (
        Kind::TemperatureCritical,
        516,
        Unit::Celcius,
        false,
        "TemperatureCritical",
    ),
    (
        Kind::TemperatureCriticalHysteresis,
        517,
        Unit::Celcius,
        false,
        "TemperatureCriticalHysteresis",
    ),
    (
        Kind::TemperatureLCritical,
        518,
        Unit::Celcius,
        false,
        "TemperatureLCritical",
    ),
    (
        Kind::TemperatureEmergency,
        519,
        Unit::Celcius,
        false,
        "TemperatureEmergency",
    ),
    (
        Kind::TemperatureEmergencyHysteresis,
        520,
        Unit::Celcius,
        false,
        "TemperatureEmergencyHysteresis",
    ),
    (
        Kind::TemperatureLowest,
        521,
        Unit::Celcius,
        false,
        "TemperatureLowest",
    ),
    (
        Kind::TemperatureHighest,
        522,
        Unit::Celcius,
        false,
        "TemperatureHighest",
    ),
    (
        Kind::TemperatureMinimumHysteresis,
        523,
        Unit::Celcius,
        false,
        "TemperatureMinimumHysteresis",
    ),
    (
        Kind::TemperatureLCriticalHysteresis,
        524,
        Unit::Celcius,
        false,
        "TemperatureLCriticalHysteresis",
    ),
    (
        Kind::TemperatureAlarm,
        640,
        Unit::Unitless,
        true,
        "TemperatureAlarm",
    ),
    (
        Kind::TemperatureMaximumAlarm,
        641,
        Unit::Unitless,
        true,
        "TemperatureMaximumAlarm",
    ),
    (
        Kind::TemperatureMinimumAlarm,
        642,
        Unit::Unitless,
        true,
        "TemperatureMinimumAlarm",
    ),
    (
        Kind::TemperatureCriticalAlarm,
        643,
        Unit::Unitless,
        true,
        "TemperatureCriticalAlarm",
    ),
    (
        Kind::TemperatureFault,
        644,
        Unit::Unitless,
        true,
        "TemperatureFault",
    ),
    (
        Kind::TemperatureType,
        645,
        Unit::Unitless,
        false,
        "TemperatureType",
    ),
    (
        Kind::TemperatureOffset,
        646,
        Unit::Unitless,
        false,
        "TemperatureOffset",
    ),
    (
        Kind::TemperatureBeep,
        647,
        Unit::Unitless,
        true,
        "TemperatureBeep",
    ),
    (
        Kind::TemperatureEmergencyAlarm,
        648,
        Unit::Unitless,
        true,
        "TemperatureEmergencyAlarm",
    ),
    (
        Kind::TemperatureLCriticalAlarm,
        649,
        Unit::Unitless,
        true,
        "TemperatureLCriticalAlarm",
    ),
    (
        Kind::PowerAverage,
        768,
        Unit::Watt,
        false,
        "PowerAverage",
    ),
    (
        Kind::PowerAverageHighest,
        769,
        Unit::Watt,
        false,
        "PowerAverageHighest",
    ),
    (
        Kind::PowerAverageLowest,
        770,
        Unit::Watt,
        false,
        "PowerAverageLowest",
    ),
    (
        Kind::PowerInput,
        771,
        Unit::Watt,
        false,
        "PowerInput",
    ),
    (
        Kind::PowerInputHighest,
        772,
        Unit::Watt,
        false,
        "PowerInputHighest",
    ),
    (
        Kind::PowerInputLowest,
        773,
        Unit::Watt,
        false,
        "PowerInputLowest",
    ),
    (
        Kind::PowerCap,
        774,
        Unit::Watt,
        false,
        "PowerCap",
    ),
    (
        Kind::PowerCapHysteresis,
        775,
        Unit::Watt,
        false,
        "PowerCapHysteresis",
    ),
    (
        Kind::PowerMaximum,
        776,
        Unit::Watt,
        false,
        "PowerMaximum",
    ),
    (
        Kind::PowerCritical,
        777,
        Unit::Watt,
        false,
        "PowerCritical",
    ),
    (
        Kind::PowerMinimum,
        778,
        Unit::Watt,
        false,
        "PowerMinimum",
    ),
    (
        Kind::PowerLCritical,
        779,
        Unit::Watt,
        false,
        "PowerLCritical",
    ),
    (
        Kind::PowerAverageInterval,
        896,
        Unit::Second,
        false,
        "PowerAverageInterval",
    ),
    (
        Kind::PowerAlarm,
        897,
        Unit::Unitless,
        true,
        "PowerAlarm",
    ),
    (
        Kind::PowerCapAlarm,
        898,
        Unit::Unitless,
        true,
        "PowerCapAlarm",
    ),
    (
        Kind::PowerMaximumAlarm,
        899,
        Unit::Unitless,
        true,
        "PowerMaximumAlarm",
    ),
    (
        Kind::PowerCriticalAlarm,
        900,
        Unit::Unitless,
        true,
        "PowerCriticalAlarm",
    ),
    (
        Kind::PowerMinimumAlarm,
        901,
        Unit::Unitless,
        true,
        "PowerMinimumAlarm",
    ),
    (
        Kind::PowerLCriticalAlarm,
        902,
        Unit::Unitless,
        true,
        "PowerLCriticalAlarm",
    ),
    (
        Kind::EnergyInput,
        1024,
        Unit::Joule,
        false,
        "EnergyInput",
    ),
    (
        Kind::CurrentInput,
        1280,
        Unit::Amp,
        false,
        "CurrentInput",
    ),
    (
        Kind::CurrentMinimum,
        1281,
        Unit::Amp,
        false,
        "CurrentMinimum",
    ),
    (
        Kind::CurrentMaximum,
        1282,
        Unit::Amp,
        false,
        "CurrentMaximum",
    ),
    (
        Kind::CurrentLCritical,
        1283,
        Unit::Amp,
        false,
        "CurrentLCritical",
    ),
    (
        Kind::CurrentCritical,
        1284,
        Unit::Amp,
        false,
        "CurrentCritical",
    ),
    (
        Kind::CurrentAverage,
        1285,
        Unit::Amp,
        false,
        "CurrentAverage",
    ),
    (
        Kind::CurrentLowest,
        1286,
        Unit::Amp,
        false,
        "CurrentLowest",
    ),
    (
        Kind::CurrentHighest,
        1287,
        Unit::Amp,
        false,
        "CurrentHighest",
    ),
    (
        Kind::CurrentAlarm,
        1408,
        Unit::Unitless,
        true,
        "CurrentAlarm",
    ),
    (
        Kind::CurrentMinimumAlarm,
        1409,
        Unit::Unitless,
        true,
        "CurrentMinimumAlarm",
    ),
    (
        Kind::CurrentMaximumAlarm,
        1410,
        Unit::Unitless,
        true,
        "CurrentMaximumAlarm",
    ),
    (
        Kind::CurrentBeep,
        1411,
        Unit::Unitless,
        true,
        "CurrentBeep",
    ),
    (
        Kind::CurrentLCriticalAlarm,
        1412,
        Unit::Unitless,
        true,
        "CurrentLCriticalAlarm",
    ),
    (
        Kind::CurrentCriticalAlarm,
        1413,
        Unit::Unitless,
        true,
        "CurrentCriticalAlarm",
    ),
    (
        Kind::HumidityInput,
        1536,
        Unit::Percentage,
        false,
        "HumidityInput",
    ),
    (
        Kind::VoltageID,
        4096,
        Unit::Volt,
        false,
        "VoltageID",
    ),
    (
        Kind::IntrusionAlarm,
        4352,
        Unit::Unitless,
        true,
        "IntrusionAlarm",
    ),
    (
        Kind::IntrusionBeep,
        4353,
        Unit::Unitless,
        true,
        "IntrusionBeep",
    ),
    (
        Kind::BeepEnable,
        6144,
        Unit::Unitless,
        true,
        "BeepEnable",
    ),
    (
        Kind::Unknown,
        2147483647,
        Unit::Unitless,
        false,
        "Unknown",
    ),
];

fn bits(x: f64) -> u64 {
    x.to_bits()
}

fn float(b: u64) -> f64 {
    f64::from_bits(b)
}

#[test]
fn tests_kind() {
    let k0 = Kind::default();
    assert_eq!(k0, Kind::Unknown);
    assert_eq!(k0.as_raw(), 2147483647);
    assert!(!k0.name().is_empty());

    for (k, n, u, _b, s) in KIND_LIST {
        assert_eq!(Kind::from_raw(n).unwrap(), k);
        assert_eq!(n, k.as_raw());
        assert_eq!(k.unit(), u);
        assert_eq!(k.name(), s);
    }
}

#[test]
fn unit() {
    let u0 = Unit::default();
    assert_eq!(u0, Unit::Unitless);
    assert!(u0.symbol().is_empty());

    for (u, s) in [
        (Unit::Unitless, ""),
        (Unit::Volt, "V"),
        (Unit::Amp, "A"),
        (Unit::Watt, "W"),
        (Unit::Joule, "J"),
        (Unit::Celcius, "C"),
        (Unit::Second, "s"),
        (Unit::RotationPerMinute, "RPM"),
        (Unit::Percentage, "%"),
    ] {
        assert_eq!(u.symbol(), s);
    }
}

#[test]
fn temperature_sensor_kind() {
    let t0 = TemperatureSensorKind::default();
    assert_eq!(t0, TemperatureSensorKind::Disabled);
    assert_eq!(t0.as_raw(), 0);
    assert!(!t0.name().is_empty());

    assert!(TemperatureSensorKind::from_raw(bits(-1.0)).is_none());
    assert_eq!(
        TemperatureSensorKind::Thermistor,
        TemperatureSensorKind::from_raw(bits(1000.51)).unwrap()
    );
    assert!(TemperatureSensorKind::from_raw(bits(1000.49)).is_none());
    assert_eq!(
        TemperatureSensorKind::Thermistor,
        TemperatureSensorKind::from_raw(bits(4.49)).unwrap()
    );

    for (i, (t, s)) in [
        (TemperatureSensorKind::Disabled, "Disabled"),
        (TemperatureSensorKind::CPUDiode, "CPU diode"),
        (TemperatureSensorKind::Transistor, "Transistor"),
        (TemperatureSensorKind::ThermalDiode, "Thermal diode"),
        (TemperatureSensorKind::Thermistor, "Thermistor"),
        (TemperatureSensorKind::AMDAMDSI, "AMD AMDSI"),
        (TemperatureSensorKind::IntelPECI, "Intel PECI"),
    ]
    .into_iter()
    .enumerate()
    {
        assert_eq!(TemperatureSensorKind::from_raw(bits(i as f64 + 0.49)).unwrap(), t);
        assert_eq!(i as i32, t.as_raw());
        assert_eq!(t.name(), s);
    }
}

#[test]
fn sensor_value_new() {
    for (k, n, _u, b, _s) in KIND_LIST {
        let mut v0 = Value::new(k, bits(3.49)).unwrap();
        assert_eq!(v0.kind().as_raw(), n);
        assert_ne!(v0.display_form(), DisplayForm::Empty);

        if b {
            assert!((float(v0.raw_value()) - 1.0).abs() <= f64::EPSILON);
            assert_eq!(v0.unit(), Unit::Unitless);
        } else if k == Kind::TemperatureType {
            assert!((float(v0.raw_value()) - 3.0).abs() <= f64::EPSILON);
            assert_eq!(v0.unit(), Unit::Unitless);

            v0.set_raw_value(bits(-1.0)).unwrap_err();
        } else {
            assert!((float(v0.raw_value()) - 3.49).abs() <= f64::EPSILON);
        }

        let mut v1 = Value::from_raw(n, bits(0.0)).unwrap();
        assert_eq!(v1.kind(), k);
        assert!((float(v1.raw_value()) - 0.0).abs() <= f64::EPSILON);
        if b {
            assert_eq!(v1.unit(), Unit::Unitless);
            assert_eq!(v1.display_form(), DisplayForm::Empty);
        } else if k == Kind::TemperatureType {
            assert_eq!(v1.unit(), Unit::Unitless);
            assert_ne!(v1.display_form(), DisplayForm::Empty);
        } else {
            assert_ne!(v1.display_form(), DisplayForm::Empty);
        }

        let old_value = v1.set_raw_value(bits(3.49)).unwrap();
        assert!((float(old_value) - 0.0).abs() <= f64::EPSILON);

        assert_eq!(v0, v1);
    }
}

#[test]
fn sensor_value_new_bool() {
    for (k, n, _u, b, _s) in KIND_LIST {
        if !b {
            continue;
        }

        let v0 = Value::new_bool(k, true).unwrap();
        assert_eq!(v0.kind().as_raw(), n);
        assert_eq!(v0.kind().unit(), Unit::Unitless);
        assert_ne!(v0.display_form(), DisplayForm::Empty);

        let v1 = Value::new_bool(k, false).unwrap();
        assert_eq!(v1.kind().as_raw(), n);
        assert_eq!(v1.kind().unit(), Unit::Unitless);
        assert_eq!(v1.display_form(), DisplayForm::Empty);
    }
}

#[test]
fn sensor_value_new_temperature_sensor_kind() {
    let v = Value::new_temperature_sensor_kind(
        Kind::TemperatureType,
        TemperatureSensorKind::Transistor,
    )
    .unwrap();
    assert_eq!(v.kind().as_raw(), 645);
    assert_eq!(v.kind().unit(), Unit::Unitless);

    assert!(Value::new_temperature_sensor_kind(
        Kind::TemperatureInput,
        TemperatureSensorKind::Transistor,
    )
    .is_none());
}

#[test]
fn new_keeps_kind_for_every_kind() {
    for (k, _n, _u, _b, _s) in KIND_LIST {
        for x in [0.0f64, -0.0, 1.0, 2.5, -7.25, 1e300, f64::INFINITY, f64::NAN] {
            if let Some(v) = Value::new(k, bits(x)) {
                assert_eq!(v.kind(), k);
            } else {
                assert_eq!(k, Kind::TemperatureType);
            }
        }
    }
}

#[test]
fn measurement_raw_value_round_trips_exactly() {
    for x in [0.0f64, -0.0, 1.0, 3.49, -273.15, 1e-310, f64::MAX, f64::NEG_INFINITY] {
        let v = Value::new(Kind::TemperatureInput, bits(x)).unwrap();
        assert_eq!(v.raw_value(), bits(x));
        let u = Value::new(Kind::Unknown, bits(x)).unwrap();
        assert_eq!(u.raw_value(), bits(x));
    }
    let nan = Value::new(Kind::PowerInput, bits(f64::NAN)).unwrap();
    assert!(float(nan.raw_value()).is_nan());
}

#[test]
fn flag_normalizes_nonzero_to_one() {
    for x in [1.0f64, -1.0, 0.5, 1e-310, f64::NAN, f64::INFINITY, 42.0] {
        let v = Value::new(Kind::FanAlarm, bits(x)).unwrap();
        assert_eq!(v, Value::FanAlarm(true));
        assert_eq!(float(v.raw_value()), 1.0);
    }
    for x in [0.0f64, -0.0] {
        let v = Value::new(Kind::FanAlarm, bits(x)).unwrap();
        assert_eq!(v, Value::FanAlarm(false));
        assert_eq!(float(v.raw_value()), 0.0);
    }
}

#[test]
fn temperature_sensor_kind_edges() {
    assert!(TemperatureSensorKind::from_raw(bits(f64::NAN)).is_none());
    assert!(TemperatureSensorKind::from_raw(bits(f64::NEG_INFINITY)).is_none());
    assert_eq!(
        TemperatureSensorKind::from_raw(bits(f64::INFINITY)),
        Some(TemperatureSensorKind::Thermistor)
    );
    assert_eq!(
        TemperatureSensorKind::from_raw(bits(1000.5)),
        Some(TemperatureSensorKind::Thermistor)
    );
    assert!(TemperatureSensorKind::from_raw(bits(1000.0)).is_none());
    assert!(TemperatureSensorKind::from_raw(bits(7.0)).is_none());
    assert!(TemperatureSensorKind::from_raw(bits(-0.6)).is_none());
    assert_eq!(
        TemperatureSensorKind::from_raw(bits(-0.4)),
        Some(TemperatureSensorKind::Disabled)
    );
    assert_eq!(
        TemperatureSensorKind::from_raw(bits(5.5)),
        Some(TemperatureSensorKind::IntelPECI)
    );
    assert_eq!(
        TemperatureSensorKind::from_raw(bits(0.5)),
        Some(TemperatureSensorKind::CPUDiode)
    );
    assert_eq!(
        TemperatureSensorKind::from_raw(bits(1e-320)),
        Some(TemperatureSensorKind::Disabled)
    );
    assert_eq!(
        TemperatureSensorKind::from_raw(bits(1e300)),
        Some(TemperatureSensorKind::Thermistor)
    );
    for t in [
        TemperatureSensorKind::Disabled,
        TemperatureSensorKind::CPUDiode,
        TemperatureSensorKind::Transistor,
        TemperatureSensorKind::ThermalDiode,
        TemperatureSensorKind::Thermistor,
        TemperatureSensorKind::AMDAMDSI,
        TemperatureSensorKind::IntelPECI,
    ] {
        assert_eq!(float(t.raw_bits()), f64::from(t.as_raw()));
        assert_eq!(TemperatureSensorKind::from_raw(t.raw_bits()), Some(t));
    }
}

#[test]
fn set_raw_value_rejects_invalid_sensor_kind() {
    let mut v = Value::TemperatureType(TemperatureSensorKind::Transistor);
    let err = v.set_raw_value(bits(f64::NAN)).unwrap_err();
    assert_eq!(
        err,
        lm_sensors::errors::Error::IO {
            operation: "TemperatureSensorKind::new",
            kind: lm_sensors::errors::IoErrorKind::InvalidData,
        }
    );
    assert_eq!(v, Value::TemperatureType(TemperatureSensorKind::Transistor));
    assert_eq!(float(v.set_raw_value(bits(6.0)).unwrap()), 2.0);
    assert_eq!(v, Value::TemperatureType(TemperatureSensorKind::IntelPECI));

    let mut u = Value::Unknown { kind: Kind::FanInput, value: bits(1.0) };
    assert_eq!(float(u.set_raw_value(bits(2.0)).unwrap()), 1.0);
    assert_eq!(u, Value::Unknown { kind: Kind::FanInput, value: bits(2.0) });
}

#[test]
fn display_forms() {
    assert_eq!(
        Value::VoltageInput(bits(1.5)).display_form(),
        DisplayForm::Measurement { bits: bits(1.5), unit: Unit::Volt }
    );
    assert_eq!(
        Value::FanDivisor(bits(2.0)).display_form(),
        DisplayForm::Measurement { bits: bits(2.0), unit: Unit::Unitless }
    );
    assert_eq!(Value::TemperatureAlarm(true).display_form(), DisplayForm::Word(FlagWord::Alarm));
    assert_eq!(Value::CurrentBeep(true).display_form(), DisplayForm::Word(FlagWord::Beep));
    assert_eq!(Value::FanFault(true).display_form(), DisplayForm::Word(FlagWord::Fault));
    assert_eq!(Value::FanFault(false).display_form(), DisplayForm::Empty);
    assert_eq!(FlagWord::Alarm.text(), "ALARM");
    assert_eq!(
        Value::TemperatureType(TemperatureSensorKind::AMDAMDSI).display_form(),
        DisplayForm::SensorKind(TemperatureSensorKind::AMDAMDSI)
    );
    assert_eq!(
        Value::Unknown { kind: Kind::Unknown, value: 0 }.display_form(),
        DisplayForm::Placeholder
    );
    assert_eq!(Value::EnergyInput(0).unit(), Unit::Joule);
}

#[test]
fn from_raw_rejects_unknown_codes() {
    assert!(Kind::from_raw(8).is_none());
    assert!(Value::from_raw(8, bits(1.0)).is_none());
    assert!(Value::from_raw(645, bits(-3.0)).is_none());
    assert_eq!(Value::from_raw(645, bits(2.2)), Some(Value::TemperatureType(TemperatureSensorKind::Transistor)));
}
