use rustjoycal::frame::{
    acknowledges_spi_write, carries_device_info, device_info_report, input_mode_report,
    spi_write_report,
};
use rustjoycal::info::{decode_device_info, format_firmware, format_mac};

fn reply(class: u8, subcommand: u8, len: usize) -> Vec<u8> {
    let mut report = vec![0u8; len];
    report[0x0D] = class;
    report[0x0E] = subcommand;
    report
}

#[test]
fn device_info_report_layout() {
    let mut expected = [0u8; 49];
    expected[0] = 0x01;
    expected[1] = 0x05;
    expected[10] = 0x02;
    assert_eq!(device_info_report(0x05), expected);
}

#[test]
fn input_mode_report_layout() {
    let mut expected = [0u8; 49];
    expected[0] = 0x01;
    expected[1] = 0x0F;
    expected[10] = 0x03;
    expected[11] = 0x30;
    assert_eq!(input_mode_report(0xFF), expected);
}

#[test]
fn counter_uses_four_bits() {
    assert_eq!(device_info_report(0x10)[1], 0x00);
    assert_eq!(device_info_report(0x1F)[1], 0x0F);
    assert_eq!(spi_write_report(0x23, 0, &[])[1], 0x03);
}

#[test]
fn spi_write_report_layout() {
    let payload = [0xB0, 0x06, 0x61, 0x00, 0x08, 0x7F, 0xB0, 0x06, 0x5F];
    let report = spi_write_report(3, 0x6046, &payload);
    let mut expected = [0u8; 49];
    expected[0] = 0x01;
    expected[1] = 0x03;
    expected[10] = 0x11;
    expected[11..15].copy_from_slice(&[0x46, 0x60, 0x00, 0x00]);
    expected[15] = 9;
    expected[16..25].copy_from_slice(&payload);
    assert_eq!(report, expected);
}

#[test]
fn spi_write_report_takes_the_longest_payload() {
    let payload: Vec<u8> = (1..=25).collect();
    let report = spi_write_report(0, 0x1234_5678, &payload);
    assert_eq!(&report[11..15], &[0x78, 0x56, 0x34, 0x12]);
    assert_eq!(report[15], 25);
    assert_eq!(&report[16..41], &payload[..]);
    assert_eq!(&report[41..49], &[0u8; 8]);
}

#[test]
fn acknowledgement_is_told_by_two_bytes() {
    assert!(acknowledges_spi_write(&reply(0x80, 0x11, 49)));
    assert!(acknowledges_spi_write(&reply(0x80, 0x11, 15)));
    assert!(!acknowledges_spi_write(&reply(0x80, 0x10, 49)));
    assert!(!acknowledges_spi_write(&reply(0x82, 0x11, 49)));
    assert!(!acknowledges_spi_write(&[0u8; 49]));
    assert!(!acknowledges_spi_write(&[0x80u8; 14]));
    assert!(!acknowledges_spi_write(&[]));
}

#[test]
fn device_info_needs_the_whole_report() {
    assert!(carries_device_info(&reply(0x82, 0x02, 49)));
    assert!(carries_device_info(&reply(0x82, 0x02, 25)));
    assert!(!carries_device_info(&reply(0x82, 0x02, 24)));
    assert!(!carries_device_info(&reply(0x80, 0x02, 49)));
    assert!(!carries_device_info(&reply(0x82, 0x03, 49)));
}

#[test]
fn firmware_is_major_dot_minor_in_hex() {
    assert_eq!(format_firmware(0x03, 0x48), "3.48");
    assert_eq!(format_firmware(0x04, 0x0A), "4.0A");
    assert_eq!(format_firmware(0x1B, 0x00), "1B.00");
    assert_eq!(format_firmware(0x00, 0xFF), "0.FF");
    assert_eq!(format_firmware(0xF0, 0x07), "F0.07");
}

#[test]
fn mac_is_six_bytes_with_colons() {
    let mut report = reply(0x82, 0x02, 49);
    report[0x13..0x19].copy_from_slice(&[0x7C, 0xBB, 0x8A, 0x01, 0x02, 0x0F]);
    assert_eq!(format_mac(&report), "7C:BB:8A:01:02:0F");
}

#[test]
fn device_info_is_decoded_from_a_reply() {
    let mut report = reply(0x82, 0x02, 49);
    report[0x0F] = 0x03;
    report[0x10] = 0x48;
    report[0x13..0x19].copy_from_slice(&[0x7C, 0xBB, 0x8A, 0x01, 0x02, 0x0F]);
    assert_eq!(
        decode_device_info(&report),
        Some(("3.48".to_string(), "7C:BB:8A:01:02:0F".to_string()))
    );
    assert_eq!(decode_device_info(&reply(0x80, 0x11, 49)), None);
    assert_eq!(decode_device_info(&[]), None);
}
