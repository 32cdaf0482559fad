use lm_sensors::errors::{
    config_error_line, display_text, found_or_not_found, nul_terminated, status_result, text_or,
    Error, IoErrorKind, PLACEHOLDER, UNKNOWN_ERROR, UNKNOWN_PROCEDURE,
};

#[test]
fn from_lm_sensors_keeps_magnitude() {
    assert_eq!(
        Error::from_lm_sensors("sensors_get_value()", -3, "Can't read".to_string()),
        Error::LMSensors { operation: "sensors_get_value()", number: 3, description: "Can't read".to_string() }
    );
    assert_eq!(
        Error::from_lm_sensors("x", 4, String::new()),
        Error::LMSensors { operation: "x", number: 4, description: String::new() }
    );
    assert_eq!(
        Error::from_io_path("fopen()", b"/tmp".to_vec(), IoErrorKind::IsADirectory),
        Error::IO1Path { operation: "fopen()", path: b"/tmp".to_vec(), kind: IoErrorKind::IsADirectory }
    );
}

#[test]
fn status_results() {
    assert_eq!(status_result("sensors_do_chip_sets()", 0, String::new()), Ok(()));
    assert_eq!(
        status_result("sensors_do_chip_sets()", -9, "Can't write".to_string()),
        Err(Error::LMSensors { operation: "sensors_do_chip_sets()", number: 9, description: "Can't write".to_string() })
    );
}

#[test]
fn lookups() {
    assert_eq!(found_or_not_found("sensors_get_label()", Some(7)), Ok(7));
    assert_eq!(
        found_or_not_found::<u8>("sensors_get_label()", None),
        Err(Error::IO { operation: "sensors_get_label()", kind: IoErrorKind::NotFound })
    );
}

#[test]
fn c_string_from_path() {
    assert_eq!(nul_terminated(b"xyz/abc"), Ok(b"xyz/abc\0".to_vec()));
    assert_eq!(nul_terminated(b""), Ok(vec![0u8]));
    assert_eq!(nul_terminated(b"xyz\0abc"), Err(Error::UnexpectedNul(3)));
}

#[test]
fn placeholders() {
    assert_eq!(display_text(None), "\u{fffd}");
    assert_eq!(display_text(None), PLACEHOLDER);
    assert_eq!(display_text(Some("it8721-isa-0290".to_string())), "it8721-isa-0290");
    assert_eq!(text_or(None, UNKNOWN_ERROR), "<unknown-error>");
    assert_eq!(text_or(None, UNKNOWN_PROCEDURE), "<unknown-procedure>");
    assert_eq!(text_or(Some("oops"), UNKNOWN_ERROR), "oops");
}

#[test]
fn config_lines() {
    assert_eq!(config_error_line(-5), 1);
    assert_eq!(config_error_line(0), 1);
    assert_eq!(config_error_line(1), 1);
    assert_eq!(config_error_line(42), 42);
    assert_eq!(config_error_line(i32::MAX), i32::MAX as usize);
}
