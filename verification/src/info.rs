//! Text form of the device information: the firmware version and the
//! hardware address that the device reports about itself.

use vstd::prelude::*;

use crate::frame::is_device_info;

verus! {

/// Offset of the major firmware version in a device information report.
pub const FIRMWARE_MAJOR_AT: usize = 0x0F;

/// Offset of the minor firmware version in a device information report.
pub const FIRMWARE_MINOR_AT: usize = 0x10;

/// Offset of the first of the six address bytes in a device information
/// report.
pub const MAC_AT: usize = 0x13;

/// The upper-case hexadecimal digit of a value below 16.
pub open spec fn hex_char(d: int) -> char {
    seq!['0', '1', '2', '3', '4', '5', '6', '7', '8', '9', 'A', 'B', 'C', 'D', 'E', 'F'][d]
}

/// A byte as two upper-case hexadecimal digits.
pub open spec fn hex_pair(b: u8) -> Seq<char> {
    seq![hex_char(b as int / 16), hex_char(b as int % 16)]
}

/// A byte in upper-case hexadecimal without a leading zero.
pub open spec fn hex_short(b: u8) -> Seq<char> {
    if b < 16 {
        seq![hex_char(b as int)]
    } else {
        hex_pair(b)
    }
}

/// The firmware version: major version without padding, a dot, minor
/// version in two digits.
pub open spec fn firmware_text(major: u8, minor: u8) -> Seq<char> {
    hex_short(major) + seq!['.'] + hex_pair(minor)
}

/// The hardware address: the first `count` of the six bytes from `MAC_AT`
/// on, each in two digits, a colon between neighbours.
pub open spec fn mac_prefix(report: Seq<u8>, count: int) -> Seq<char>
    decreases count,
{
    if count <= 0 {
        Seq::<char>::empty()
    } else if count == 1 {
        hex_pair(report[MAC_AT as int])
    } else {
        mac_prefix(report, count - 1) + seq![':'] + hex_pair(report[MAC_AT + count - 1])
    }
}

/// The hardware address of a device information report.
pub open spec fn mac_text(report: Seq<u8>) -> Seq<char> {
    mac_prefix(report, 6)
}

/// The digit of a value below 16 as a string of one character.
fn hex_digit(d: u8) -> (digit: &'static str)
    requires
        d < 16,
    ensures
        digit@ == seq![hex_char(d as int)],
{
    proof {
        reveal_strlit("0");
        reveal_strlit("1");
        reveal_strlit("2");
        reveal_strlit("3");
        reveal_strlit("4");
        reveal_strlit("5");
        reveal_strlit("6");
        reveal_strlit("7");
        reveal_strlit("8");
        reveal_strlit("9");
        reveal_strlit("A");
        reveal_strlit("B");
        reveal_strlit("C");
        reveal_strlit("D");
        reveal_strlit("E");
        reveal_strlit("F");
    }
    let digit = match d {
        0 => "0",
        1 => "1",
        2 => "2",
        3 => "3",
        4 => "4",
        5 => "5",
        6 => "6",
        7 => "7",
        8 => "8",
        9 => "9",
        10 => "A",
        11 => "B",
        12 => "C",
        13 => "D",
        14 => "E",
        _ => "F",
    };
    assert(digit@ =~= seq![hex_char(d as int)]);
    digit
}

/// Appends a byte as two hexadecimal digits.
fn push_hex_pair(text: &mut String, b: u8)
    ensures
        final(text)@ == old(text)@ + hex_pair(b),
{
    text.append(hex_digit(b / 16));
    text.append(hex_digit(b % 16));
    assert(text@ =~= old(text)@ + hex_pair(b));
}

/// Formats the firmware version.
pub fn format_firmware(major: u8, minor: u8) -> (text: String)
    ensures
        text@ == firmware_text(major, minor),
{
    let mut text = String::new();
    if major >= 16 {
        text.append(hex_digit(major / 16));
    }
    text.append(hex_digit(major % 16));
    proof {
        reveal_strlit(".");
    }
    text.append(".");
    push_hex_pair(&mut text, minor);
    assert(text@ =~= firmware_text(major, minor));
    text
}

/// Formats the hardware address held by a device information report.
pub fn format_mac(report: &[u8]) -> (text: String)
    requires
        report@.len() > 0x18,
    ensures
        text@ == mac_text(report@),
{
    let mut text = String::new();
    push_hex_pair(&mut text, report[MAC_AT]);
    assert(text@ =~= mac_prefix(report@, 1));
    let mut k: usize = 1;
    while k < 6
        invariant
            1 <= k <= 6,
            report@.len() > 0x18,
            text@ == mac_prefix(report@, k as int),
        decreases 6 - k,
    {
        proof {
            reveal_strlit(":");
        }
        text.append(":");
        push_hex_pair(&mut text, report[MAC_AT + k]);
        k += 1;
        assert(text@ =~= mac_prefix(report@, k as int));
    }
    text
}

/// Reads firmware version and hardware address out of a device information
/// report, or nothing if the report is none.
pub fn decode_device_info(report: &[u8]) -> (info: Option<(String, String)>)
    ensures
        info is Some <==> is_device_info(report@),
        info matches Some((firmware, mac)) ==> {
            &&& firmware@ == firmware_text(
                report@[FIRMWARE_MAJOR_AT as int],
                report@[FIRMWARE_MINOR_AT as int],
            )
            &&& mac@ == mac_text(report@)
        },
{
    if crate::frame::carries_device_info(report) {
        let firmware = format_firmware(report[FIRMWARE_MAJOR_AT], report[FIRMWARE_MINOR_AT]);
        let mac = format_mac(report);
        Some((firmware, mac))
    } else {
        None
    }
}

} // verus!
