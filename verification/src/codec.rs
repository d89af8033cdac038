//! Packing of two 12-bit values into three bytes.
//!
//! Byte 0 holds the low eight bits of the first value. Byte 1 holds the high
//! four bits of the first value in its low nibble and the low four bits of
//! the second value in its high nibble. Byte 2 holds the high eight bits of
//! the second value.

use vstd::prelude::*;

use crate::model::StickData;

verus! {

/// Largest value that fits in twelve bits.
pub const MAX_12BIT: u16 = 0xFFF;

/// The three bytes that stand for the pair `(v0, v1)`. Bits above the
/// twelfth of either value do not reach the result.
pub open spec fn pack_pair(v0: u16, v1: u16) -> Seq<u8> {
    seq![
        (v0 % 256) as u8,
        ((v0 / 256) % 16 + (v1 % 16) * 16) as u8,
        ((v1 / 16) % 256) as u8,
    ]
}

/// The pair of 12-bit values that the bytes `b0, b1, b2` stand for.
pub open spec fn unpack_pair(b0: u8, b1: u8, b2: u8) -> (u16, u16) {
    ((b0 + (b1 % 16) * 256) as u16, (b1 / 16 + b2 * 16) as u16)
}

/// Packs two 12-bit values into three bytes.
pub fn encode_stick_params(decoded: &[u16; 2]) -> (encoded: [u8; 3])
    ensures
        encoded@ == pack_pair(decoded[0], decoded[1]),
{
    let v0: u16 = decoded[0];
    let v1: u16 = decoded[1];
    assert((v0 & 0xFF) == v0 % 256) by (bit_vector);
    assert(((v0 & 0xF00) >> 8) == (v0 / 256) % 16) by (bit_vector);
    assert(((v1 & 0xF) << 4) == (v1 % 16) * 16) by (bit_vector);
    assert(((v1 & 0xFF0) >> 4) == (v1 / 16) % 256) by (bit_vector);
    let low: u8 = ((v0 & 0xF00) >> 8) as u8;
    let high: u8 = ((v1 & 0xF) << 4) as u8;
    assert(low | high == low + high) by (bit_vector)
        requires
            low < 16,
            high % 16 == 0,
    ;
    let encoded: [u8; 3] = [(v0 & 0xFF) as u8, low | high, ((v1 & 0xFF0) >> 4) as u8];
    assert(encoded@ =~= pack_pair(v0, v1));
    encoded
}

/// Unpacks three bytes into the two 12-bit values they hold.
pub fn decode_stick_params(encoded: &[u8; 3]) -> (decoded: [u16; 2])
    ensures
        decoded[0] == unpack_pair(encoded[0], encoded[1], encoded[2]).0,
        decoded[1] == unpack_pair(encoded[0], encoded[1], encoded[2]).1,
        decoded[0] <= MAX_12BIT,
        decoded[1] <= MAX_12BIT,
{
    let b0: u8 = encoded[0];
    let b1: u8 = encoded[1];
    let b2: u8 = encoded[2];
    let (v0, v1) = decode_pair(b0, b1, b2);
    [v0, v1]
}

/// Unpacks the pair held by three consecutive bytes.
pub fn decode_pair(b0: u8, b1: u8, b2: u8) -> (pair: (u16, u16))
    ensures
        pair == unpack_pair(b0, b1, b2),
        pair.0 <= MAX_12BIT,
        pair.1 <= MAX_12BIT,
{
    assert((((b1 & 0xF) as u16) << 8 | b0 as u16) == b0 as u16 + (b1 as u16 % 16) * 256)
        by (bit_vector);
    assert(((b2 as u16) << 4 | ((b1 & 0xF0) >> 4) as u16) == (b1 / 16) as u16 + (b2 as u16) * 16)
        by (bit_vector);
    let v0: u16 = ((b1 & 0xF) as u16) << 8 | b0 as u16;
    let v1: u16 = (b2 as u16) << 4 | ((b1 & 0xF0) >> 4) as u16;
    (v0, v1)
}

/// Offset of the six bytes of stick data in an input report.
pub const STICKS_AT: usize = 6;

/// An input report is long enough to hold stick data.
pub open spec fn has_sticks(report: Seq<u8>) -> bool {
    report.len() > 12
}

/// The reading held by an input report: the left stick in the three bytes
/// from `STICKS_AT` on, the right stick in the three bytes after them.
pub open spec fn stick_sample(report: Seq<u8>) -> StickData {
    let left = unpack_pair(report[6], report[7], report[8]);
    let right = unpack_pair(report[9], report[10], report[11]);
    StickData { lx: left.0, ly: left.1, rx: right.0, ry: right.1 }
}

/// Reads the sticks out of an input report, or nothing if the report is too
/// short to hold them.
pub fn decode_stick_data(report: &[u8]) -> (data: Option<StickData>)
    ensures
        data == if has_sticks(report@) {
            Some(stick_sample(report@))
        } else {
            None
        },
        data matches Some(sample) ==> sample.wf(),
{
    if report.len() > 12 {
        let (lx, ly) = decode_pair(report[STICKS_AT], report[STICKS_AT + 1], report[STICKS_AT + 2]);
        let (rx, ry) = decode_pair(
            report[STICKS_AT + 3],
            report[STICKS_AT + 4],
            report[STICKS_AT + 5],
        );
        Some(StickData { lx, ly, rx, ry })
    } else {
        None
    }
}

/// Decoding what was encoded gives the values back, for every pair of
/// 12-bit values.
pub proof fn lemma_decode_encode(v0: u16, v1: u16)
    requires
        v0 <= MAX_12BIT,
        v1 <= MAX_12BIT,
    ensures
        unpack_pair(pack_pair(v0, v1)[0], pack_pair(v0, v1)[1], pack_pair(v0, v1)[2]) == (v0, v1),
{
}

/// Encoding what was decoded gives the bytes back, for every three bytes.
pub proof fn lemma_encode_decode(b0: u8, b1: u8, b2: u8)
    ensures
        pack_pair(unpack_pair(b0, b1, b2).0, unpack_pair(b0, b1, b2).1) == seq![b0, b1, b2],
{
    let p = unpack_pair(b0, b1, b2);
    assert(pack_pair(p.0, p.1) =~= seq![b0, b1, b2]);
}

} // verus!
