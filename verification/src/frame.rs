//! Layout of the reports exchanged with the controller.
//!
//! An output report has 49 bytes: byte 0 is the command id, byte 1 the low
//! four bits of the session's rolling counter, byte 10 the subcommand and the
//! bytes from 11 on its arguments. An input report echoes the class of the
//! reply at byte 0x0D and the subcommand at byte 0x0E.

use vstd::prelude::*;

verus! {

/// Length of every output report.
pub const REPORT_LEN: usize = 49;

/// Command id at byte 0 of every output report.
pub const COMMAND_ID: u8 = 0x01;

/// Subcommand that asks for firmware version and address of the device.
pub const SUBCMD_DEVICE_INFO: u8 = 0x02;

/// Subcommand that selects the input report mode.
pub const SUBCMD_INPUT_MODE: u8 = 0x03;

/// Subcommand that writes to the flash memory.
pub const SUBCMD_SPI_WRITE: u8 = 0x11;

/// Argument of `SUBCMD_INPUT_MODE` for continuous stick and button reports.
pub const INPUT_MODE_STANDARD: u8 = 0x30;

/// Class byte of a reply that carries the device information.
pub const REPLY_DEVICE_INFO: u8 = 0x82;

/// Class byte of a reply that acknowledges a flash write.
pub const REPLY_SPI_WRITE: u8 = 0x80;

/// Longest payload of one flash write.
pub const MAX_SPI_PAYLOAD: usize = 25;

/// Byte `k` of `value` in little-endian order.
pub open spec fn le_byte(value: u32, k: int) -> u8 {
    if k == 0 {
        (value % 256) as u8
    } else if k == 1 {
        ((value / 0x100) % 256) as u8
    } else if k == 2 {
        ((value / 0x1_0000) % 256) as u8
    } else {
        ((value / 0x100_0000) % 256) as u8
    }
}

/// The output report that asks for the device information.
pub open spec fn device_info_frame(timing: u8) -> Seq<u8> {
    Seq::new(
        REPORT_LEN as nat,
        |i: int|
            if i == 0 {
                COMMAND_ID
            } else if i == 1 {
                timing % 16
            } else if i == 10 {
                SUBCMD_DEVICE_INFO
            } else {
                0u8
            },
    )
}

/// The output report that switches the device to standard input reports.
pub open spec fn input_mode_frame(timing: u8) -> Seq<u8> {
    Seq::new(
        REPORT_LEN as nat,
        |i: int|
            if i == 0 {
                COMMAND_ID
            } else if i == 1 {
                timing % 16
            } else if i == 10 {
                SUBCMD_INPUT_MODE
            } else if i == 11 {
                INPUT_MODE_STANDARD
            } else {
                0u8
            },
    )
}

/// The output report that writes `payload` to the flash at `address`: the
/// address in little-endian order at bytes 11 to 14, the length at byte 15,
/// the payload from byte 16 on.
pub open spec fn spi_write_frame(timing: u8, address: u32, payload: Seq<u8>) -> Seq<u8> {
    Seq::new(
        REPORT_LEN as nat,
        |i: int|
            if i == 0 {
                COMMAND_ID
            } else if i == 1 {
                timing % 16
            } else if i == 10 {
                SUBCMD_SPI_WRITE
            } else if 11 <= i < 15 {
                le_byte(address, i - 11)
            } else if i == 15 {
                payload.len() as u8
            } else if 16 <= i < 16 + payload.len() {
                payload[i - 16]
            } else {
                0u8
            },
    )
}

/// An input report answers `subcommand` with a reply of class `class`.
pub open spec fn is_reply(report: Seq<u8>, class: u8, subcommand: u8) -> bool {
    report.len() > 0x0E && report[0x0D] == class && report[0x0E] == subcommand
}

/// An input report carries the device information: the reply bytes match and
/// the report is long enough to hold version and address.
pub open spec fn is_device_info(report: Seq<u8>) -> bool {
    report.len() > 0x18 && is_reply(report, REPLY_DEVICE_INFO, SUBCMD_DEVICE_INFO)
}

/// An input report acknowledges a flash write.
pub open spec fn is_spi_ack(report: Seq<u8>) -> bool {
    is_reply(report, REPLY_SPI_WRITE, SUBCMD_SPI_WRITE)
}

/// A report of zeroes with command id, rolling counter and subcommand set.
fn command_report(timing: u8, subcommand: u8) -> (report: [u8; 49])
    ensures
        report@.len() == REPORT_LEN,
        forall|i: int|
            0 <= i < REPORT_LEN ==> #[trigger] report@[i] == if i == 0 {
                COMMAND_ID
            } else if i == 1 {
                timing % 16
            } else if i == 10 {
                subcommand
            } else {
                0u8
            },
{
    let mut report: [u8; 49] = [0u8; 49];
    assert(timing & 0xF == timing % 16) by (bit_vector);
    report[0] = COMMAND_ID;
    report[1] = timing & 0xF;
    report[10] = subcommand;
    report
}

/// Builds the output report that asks for the device information.
pub fn device_info_report(timing: u8) -> (report: [u8; 49])
    ensures
        report@ == device_info_frame(timing),
{
    let report = command_report(timing, SUBCMD_DEVICE_INFO);
    assert(report@ =~= device_info_frame(timing));
    report
}

/// Builds the output report that switches the device to standard input
/// reports.
pub fn input_mode_report(timing: u8) -> (report: [u8; 49])
    ensures
        report@ == input_mode_frame(timing),
{
    let mut report = command_report(timing, SUBCMD_INPUT_MODE);
    report[11] = INPUT_MODE_STANDARD;
    assert(report@ =~= input_mode_frame(timing));
    report
}

/// Builds the output report that writes `payload` to the flash at `address`.
pub fn spi_write_report(timing: u8, address: u32, payload: &[u8]) -> (report: [u8; 49])
    requires
        payload@.len() <= MAX_SPI_PAYLOAD,
    ensures
        report@ == spi_write_frame(timing, address, payload@),
{
    let mut report = command_report(timing, SUBCMD_SPI_WRITE);
    assert(address & 0xFF == address % 256) by (bit_vector);
    assert((address >> 8) & 0xFF == (address / 0x100) % 256) by (bit_vector);
    assert((address >> 16) & 0xFF == (address / 0x1_0000) % 256) by (bit_vector);
    assert((address >> 24) & 0xFF == (address / 0x100_0000) % 256) by (bit_vector);
    report[11] = (address & 0xFF) as u8;
    report[12] = ((address >> 8) & 0xFF) as u8;
    report[13] = ((address >> 16) & 0xFF) as u8;
    report[14] = ((address >> 24) & 0xFF) as u8;
    report[15] = payload.len() as u8;
    let ghost frame = spi_write_frame(timing, address, payload@);
    assert(forall|i: int| 0 <= i < 16 ==> report@[i] == frame[i]);
    let mut k: usize = 0;
    while k < payload.len()
        invariant
            k <= payload@.len() <= MAX_SPI_PAYLOAD,
            report@.len() == REPORT_LEN,
            frame == spi_write_frame(timing, address, payload@),
            forall|i: int| 0 <= i < 16 ==> report@[i] == frame[i],
            forall|i: int| 16 <= i < 16 + k ==> report@[i] == payload@[i - 16],
            forall|i: int| 16 + k <= i < REPORT_LEN ==> report@[i] == 0u8,
        decreases payload@.len() - k,
    {
        report[16 + k] = payload[k];
        k += 1;
    }
    assert(report@ =~= frame);
    report
}

/// Tells whether an input report carries the device information.
pub fn carries_device_info(report: &[u8]) -> (found: bool)
    ensures
        found == is_device_info(report@),
{
    report.len() > 0x18 && report[0x0D] == REPLY_DEVICE_INFO && report[0x0E]
        == SUBCMD_DEVICE_INFO
}

/// Tells whether an input report acknowledges a flash write.
pub fn acknowledges_spi_write(report: &[u8]) -> (found: bool)
    ensures
        found == is_spi_ack(report@),
{
    report.len() > 0x0E && report[0x0D] == REPLY_SPI_WRITE && report[0x0E] == SUBCMD_SPI_WRITE
}

} // verus!
