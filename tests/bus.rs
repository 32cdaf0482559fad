use lm_sensors::bus::{
    Bus, Kind, Number, BUS_NR_ANY, BUS_NR_IGNORE, BUS_TYPE_I2C, BUS_TYPE_PCI,
};

#[test]
fn tests_new() {
    let b0 = Bus::default_bus();

    let b1 = Bus::new(Kind::Any, Number::Any);
    assert_eq!(b0, b1);

    let b2 = Bus::new(Kind::PCI, Number::Number(42));
    assert_ne!(b0, b2);

    let b3 = Bus::new_raw(BUS_TYPE_PCI, 42);
    assert_eq!(b2, b3);

    let b3 = Bus::new_raw(BUS_TYPE_PCI, 41);
    assert_ne!(b2, b3);

    let b3 = Bus::new_raw(BUS_TYPE_I2C, 42);
    assert_ne!(b2, b3);
}

#[test]
fn tests_raw() {
    let mut b0 = Bus::new(Kind::PCI, Number::Number(42));
    assert_eq!(b0.raw_kind(), 2);
    assert_eq!(b0.raw_number(), 42);
    b0.set_raw_number(41);
    b0.set_raw_kind(BUS_TYPE_I2C);
    assert_eq!(b0, Bus::new_raw(0, 41));

    let b3 = Bus::new(Kind::Any, Number::Any);
    assert_eq!(b3.raw_kind(), -1);
    assert_eq!(b3.raw_number(), -1);
}

#[test]
fn bus() {
    let mut b0 = Bus::new(Kind::PCI, Number::Number(42));
    assert_eq!(b0.kind().unwrap(), Kind::PCI);
    assert_eq!(b0.number(), Number::Number(42));
    b0.set_number(Number::Number(41));
    b0.set_kind(Kind::ISA);
    assert_eq!(b0.kind(), Some(Kind::ISA));
    assert_eq!(b0.number(), Number::Number(41));

    let b2 = Bus::new(Kind::Any, Number::Any);
    assert_eq!(b2.kind().unwrap(), Kind::Any);
    assert_eq!(b2.number(), Number::Any);

    let b4 = Bus::new_raw(99, -2);
    assert_eq!(b4.kind(), None);
    assert_eq!(b4.number(), Number::Ignore);
}

#[test]
fn number() {
    let n0 = Number::default();
    assert_eq!(n0, Number::Any);
    assert_eq!(n0, Number::from(BUS_NR_ANY));
    assert_eq!(i16::from(n0), BUS_NR_ANY);

    let n1 = Number::Ignore;
    assert_ne!(n0, n1);
    assert_eq!(n1, Number::from(BUS_NR_IGNORE));
    assert_eq!(i16::from(n1), BUS_NR_IGNORE);

    let n2 = Number::Number(42);
    assert_ne!(n0, n2);
    assert_eq!(n2, Number::from(42));
}

#[test]
fn kind() {
    let k0 = Kind::default();
    assert_eq!(k0, Kind::Any);
    assert_ne!(k0, Kind::I2C);
    assert!(Kind::from_raw(i16::MAX).is_none());

    for (k, n, s) in [
        (Kind::Any, -1, "Any"),
        (Kind::I2C, 0, "Inter-Integrated Circuit (I2C)"),
        (Kind::ISA, 1, "Industry Standard Architecture (ISA)"),
        (Kind::PCI, 2, "Peripheral Component Interconnect (PCI)"),
        (Kind::SPI, 3, "Serial Peripheral Interface (SPI)"),
        (Kind::Virtual, 4, "Virtual"),
        (Kind::ACPI, 5, "Advanced Configuration and Power Interface (ACPI)"),
        (Kind::HID, 6, "Human Interface Device (HID)"),
        (Kind::MDIO, 7, "Management Data Input/Output (MDIO)"),
        (Kind::SCSI, 8, "Small Computer System Interface (SCSI)"),
    ] {
        assert_eq!(Kind::from_raw(n).unwrap(), k);
        assert_eq!(n, k.as_raw());
        assert_eq!(k.description(), s);
    }
}

#[test]
fn bus_round_trips() {
    for k in [Kind::Any, Kind::I2C, Kind::PCI, Kind::SCSI] {
        for n in [Number::Any, Number::Ignore, Number::Number(0), Number::Number(i16::MAX), Number::Number(-3)] {
            let b = Bus::new(k, n);
            assert_eq!(b.kind(), Some(k));
            assert_eq!(b.number(), n);
        }
    }
    assert_eq!(Number::from_raw(-1), Number::Any);
    assert_eq!(Number::Number(-1).as_raw(), -1);
    assert_eq!(Number::from_raw(Number::Number(-2).as_raw()), Number::Ignore);
    for raw in [i16::MIN, -3, -2, -1, 0, 7, i16::MAX] {
        assert_eq!(Number::from_raw(raw).as_raw(), raw);
    }
}
