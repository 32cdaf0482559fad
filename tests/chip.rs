use lm_sensors::bus::{Bus, Kind, Number};
use lm_sensors::chip::{name_buffer_len, name_from_buffer, ChipName, CHIP_NAME_ADDR_ANY};
use lm_sensors::errors::{Error, IoErrorKind};

fn isa_chip(prefix: &str) -> ChipName {
    ChipName::new(
        Some(prefix.as_bytes().to_vec()),
        Bus::new(Kind::ISA, Number::Number(0)),
        0x290,
        Some(b"/sys/class/hwmon/hwmon1".to_vec()),
    )
}

#[test]
fn chips_with_same_parts_are_equal() {
    let owned = isa_chip("it8721");
    let borrowed = owned.clone();
    assert_eq!(owned, borrowed);
    assert!(owned.same_as(&borrowed));
    assert_eq!(isa_chip("it8721"), isa_chip("it8721"));
    assert_ne!(isa_chip("it8721"), isa_chip("it8728"));

    let mut other_bus = isa_chip("it8721");
    other_bus.set_bus(&Bus::new(Kind::PCI, Number::Number(0)));
    assert_ne!(owned, other_bus);

    let no_path = ChipName::new(Some(b"it8721".to_vec()), owned.bus(), 0x290, None);
    assert_ne!(owned, no_path);
}

#[test]
fn chip_address() {
    assert_eq!(isa_chip("x").address(), Some(0x290));
    let any = ChipName::new(None, Bus::default_bus(), CHIP_NAME_ADDR_ANY, None);
    assert_eq!(any.address(), None);
    assert_eq!(any.raw_address(), -1);
    assert!(any.raw_prefix().is_none());
    assert_eq!(isa_chip("abc").raw_prefix().unwrap(), &b"abc".to_vec());
}

#[test]
fn chip_name_protocol() {
    assert_eq!(name_buffer_len(-3), None);
    assert_eq!(name_buffer_len(0), Some(1));
    assert_eq!(name_buffer_len(15), Some(16));

    let mut buffer = b"it8721-isa-0290".to_vec();
    buffer.push(0);
    assert_eq!(
        name_from_buffer(15, buffer.clone(), String::new()),
        Ok(b"it8721-isa-0290".to_vec())
    );
    assert_eq!(
        name_from_buffer(16, buffer.clone(), String::new()),
        Err(Error::IO { operation: "sensors_snprintf_chip_name()", kind: IoErrorKind::InvalidData })
    );
    assert_eq!(
        name_from_buffer(-6, buffer.clone(), "Can't parse chip name".to_string()),
        Err(Error::LMSensors {
            operation: "sensors_snprintf_chip_name()",
            number: 6,
            description: "Can't parse chip name".to_string(),
        })
    );
    let mut with_nul = b"ab\0cd".to_vec();
    with_nul.push(0);
    assert_eq!(name_from_buffer(5, with_nul, String::new()), Err(Error::UnexpectedNul(2)));
}
