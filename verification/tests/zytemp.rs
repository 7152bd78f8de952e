use co2monitor::zytemp::{decode, decrypt, feature_report, process_frame, validate_checksum, Reading};

#[test]
fn it_decrypts() {
    assert_eq!(
        [0x50, 0x03, 0xF5, 0x48, 0x0D, 0x00, 0x00, 0x00],
        decrypt([0x98, 0xE4, 0x66, 0x20, 0x94, 0x46, 0xBF, 0x62])
    );
    assert_eq!(
        [0x6E, 0x60, 0xA0, 0x6E, 0x0D, 0x0, 0x0, 0x0],
        decrypt([0x72, 0xE4, 0x51, 0x21, 0xF9, 0x46, 0xBF, 0xB2])
    );
}

#[test]
fn it_validates_checksum() {
    assert!(validate_checksum(&[0x50, 0x03, 0xF5, 0x48, 0x0D, 0x00, 0x00, 0x00]).is_ok());
    assert!(validate_checksum(&[0x51, 0x03, 0xF5, 0x48, 0x0D, 0x00, 0x00, 0x00]).is_err());
}

#[test]
fn it_decodes_co2() {
    assert_eq!(
        Reading::CO2(1013),
        decode([0x50, 0x03, 0xF5, 0x48, 0x0D, 0x00, 0x00, 0x00]).unwrap()
    );
    assert_eq!(None, decode([0x51, 0x03, 0xF5, 0x48, 0x0D, 0x00, 0x00, 0x00]));
}

#[test]
fn decode_ignores_unknown_values() {
    assert_eq!(None, decode([0x51, 0x03, 0xF5, 0x48, 0x0D, 0x00, 0x00, 0x00]));
}

#[test]
fn decodes_temperature_fixed_point() {
    // Opcode 0x42 with payload 0x111F == 4383 sixteenths of a kelvin;
    // checksum 0x42 + 0x11 + 0x1F == 0x72.
    let frame = [0x42, 0x11, 0x1F, 0x72, 0x0D, 0x00, 0x00, 0x00];
    assert!(validate_checksum(&frame).is_ok());
    assert_eq!(Some(Reading::Temperature(4383)), decode(frame));
    // 4383 / 16 == 273.9375 kelvin, just above freezing.
    let celsius = 4383 as f32 / 16.0 - 273.15;
    assert!((celsius - 0.7875).abs() < 1e-3);
}

#[test]
fn checksum_error_names_the_failure() {
    assert_eq!(
        Err("Checksum validation failed"),
        validate_checksum(&[0x51, 0x03, 0xF5, 0x48, 0x0D, 0x00, 0x00, 0x00])
    );
    // A wrong terminator byte alone is also a corruption.
    assert_eq!(
        Err("Checksum validation failed"),
        validate_checksum(&[0x50, 0x03, 0xF5, 0x48, 0x0C, 0x00, 0x00, 0x00])
    );
}

#[test]
fn decrypt_is_deterministic() {
    let raw = [0x98, 0xE4, 0x66, 0x20, 0x94, 0x46, 0xBF, 0x62];
    assert_eq!(decrypt(raw), decrypt(raw));
    let noise = [0xFF, 0x00, 0xA5, 0x5A, 0x13, 0x37, 0xC0, 0xDE];
    assert_eq!(decrypt(noise), decrypt(noise));
}

#[test]
fn process_frame_yields_valid_reading() {
    assert_eq!(
        Some(Reading::CO2(1013)),
        process_frame([0x98, 0xE4, 0x66, 0x20, 0x94, 0x46, 0xBF, 0x62])
    );
}

#[test]
fn process_frame_skips_corrupted_frame() {
    // This raw frame descrambles to [0x51, 0x03, 0xF5, 0x48, ...], whose
    // checksum byte does not match the sum of the first three bytes.
    let raw = [0x98, 0xE4, 0x6E, 0x20, 0x94, 0x46, 0xBF, 0x62];
    assert!(validate_checksum(&decrypt(raw)).is_err());
    assert_eq!(None, process_frame(raw));
}

#[test]
fn process_frame_skips_unrecognized_frame() {
    // This raw frame descrambles to an intact frame with opcode 0x6E,
    // which decodes to nothing.
    let raw = [0x72, 0xE4, 0x51, 0x21, 0xF9, 0x46, 0xBF, 0xB2];
    assert!(validate_checksum(&decrypt(raw)).is_ok());
    assert_eq!(None, decode(decrypt(raw)));
    assert_eq!(None, process_frame(raw));
}

#[test]
fn feature_report_is_report_id_then_key() {
    assert_eq!(
        vec![0x00, 0xc4, 0xc6, 0xc0, 0x92, 0x40, 0x23, 0xdc, 0x96],
        feature_report()
    );
}
