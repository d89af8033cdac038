//! What a calibration looks like in the flash memory of the controller.
//!
//! Each stick has a calibration record of nine bytes and a parameter block
//! of three bytes. The flash always holds both for a left and for a right
//! stick; a controller with one stick gets the data of that stick in both
//! places.

use vstd::prelude::*;

use crate::codec::{encode_stick_params, pack_pair, MAX_12BIT};
use crate::model::{ControllerType, StickCalibration};

verus! {

/// Flash address of the calibration record of the left stick.
pub const LEFT_STICK_CAL_ADDR: u32 = 0x603D;

/// Flash address of the calibration record of the right stick.
pub const RIGHT_STICK_CAL_ADDR: u32 = 0x6046;

/// Flash address of the parameter block of the left stick.
pub const LEFT_STICK_PARAMS_ADDR: u32 = 0x6089;

/// Flash address of the parameter block of the right stick.
pub const RIGHT_STICK_PARAMS_ADDR: u32 = 0x609B;

/// Range ratio stored in every parameter block.
pub const RANGE_RATIO: u16 = 0xF80;

/// A run of bytes and the flash address it goes to.
#[verifier::ext_equal]
pub struct Block {
    pub address: u32,
    pub payload: Seq<u8>,
}

/// A run of bytes to write to the flash at an address.
#[derive(Debug, Clone, PartialEq, Eq)]
pub struct SpiBlock {
    pub address: u32,
    pub payload: Vec<u8>,
}

impl View for SpiBlock {
    type V = Block;

    open spec fn view(&self) -> Block {
        Block { address: self.address, payload: self.payload@ }
    }
}

/// The blocks of a list, each by its view.
pub open spec fn blocks_of(list: Seq<SpiBlock>) -> Seq<Block> {
    Seq::new(list.len(), |i: int| list[i]@)
}

/// The pair of a record that holds the distance from center to maximum.
pub open spec fn above_center(cal: StickCalibration) -> Seq<u8> {
    pack_pair((cal.xmax - cal.xcenter) as u16, (cal.ymax - cal.ycenter) as u16)
}

/// The pair of a record that holds the center.
pub open spec fn at_center(cal: StickCalibration) -> Seq<u8> {
    pack_pair(cal.xcenter, cal.ycenter)
}

/// The pair of a record that holds the distance from minimum to center.
pub open spec fn below_center(cal: StickCalibration) -> Seq<u8> {
    pack_pair((cal.xcenter - cal.xmin) as u16, (cal.ycenter - cal.ymin) as u16)
}

/// The nine bytes of a record in the place of the left stick: the pair
/// above the center, the center, the pair below it.
pub open spec fn left_record(cal: StickCalibration) -> Seq<u8> {
    above_center(cal) + at_center(cal) + below_center(cal)
}

/// The nine bytes of a record in the place of the right stick: the center,
/// the pair below it, the pair above it.
pub open spec fn right_record(cal: StickCalibration) -> Seq<u8> {
    at_center(cal) + below_center(cal) + above_center(cal)
}

/// The parameter block in the place of the left stick: deadzone first.
pub open spec fn left_params(deadzone: u16) -> Seq<u8> {
    pack_pair(deadzone, RANGE_RATIO)
}

/// The parameter block in the place of the right stick: range ratio first.
pub open spec fn right_params(deadzone: u16) -> Seq<u8> {
    pack_pair(RANGE_RATIO, deadzone)
}

/// The record that goes to the place of the left stick.
pub open spec fn left_source(
    kind: ControllerType,
    left: StickCalibration,
    right: StickCalibration,
) -> StickCalibration {
    if kind == ControllerType::JoyConR {
        right
    } else {
        left
    }
}

/// The record that goes to the place of the right stick.
pub open spec fn right_source(
    kind: ControllerType,
    left: StickCalibration,
    right: StickCalibration,
) -> StickCalibration {
    if kind == ControllerType::JoyConL {
        left
    } else {
        right
    }
}

/// A calibration can be written: every record and deadzone that reaches the
/// flash is well formed. What belongs to a stick that the controller lacks
/// is not looked at.
pub open spec fn plan_valid(
    kind: ControllerType,
    left: StickCalibration,
    right: StickCalibration,
    left_deadzone: u16,
    right_deadzone: u16,
) -> bool {
    &&& kind != ControllerType::JoyConR ==> left.wf() && left_deadzone <= MAX_12BIT
    &&& kind != ControllerType::JoyConL ==> right.wf() && right_deadzone <= MAX_12BIT
}

/// The four blocks of a calibration in the order in which they are written:
/// right record, right parameters, left record, left parameters. A
/// controller with one stick has the parameter block of that stick copied
/// byte for byte to the other place.
pub open spec fn calibration_plan(
    kind: ControllerType,
    left: StickCalibration,
    right: StickCalibration,
    left_deadzone: u16,
    right_deadzone: u16,
) -> Seq<Block> {
    let left_block = if kind == ControllerType::JoyConR {
        right_params(right_deadzone)
    } else {
        left_params(left_deadzone)
    };
    let right_block = if kind == ControllerType::JoyConL {
        left_params(left_deadzone)
    } else {
        right_params(right_deadzone)
    };
    seq![
        Block {
            address: RIGHT_STICK_CAL_ADDR,
            payload: right_record(right_source(kind, left, right)),
        },
        Block { address: RIGHT_STICK_PARAMS_ADDR, payload: right_block },
        Block { address: LEFT_STICK_CAL_ADDR, payload: left_record(left_source(kind, left, right)) },
        Block { address: LEFT_STICK_PARAMS_ADDR, payload: left_block },
    ]
}

/// Appends the three bytes of a pair.
fn push_pair(out: &mut Vec<u8>, v0: u16, v1: u16)
    ensures
        final(out)@ == old(out)@ + pack_pair(v0, v1),
{
    let pair: [u16; 2] = [v0, v1];
    let bytes = encode_stick_params(&pair);
    out.push(bytes[0]);
    out.push(bytes[1]);
    out.push(bytes[2]);
    assert(out@ =~= old(out)@ + pack_pair(v0, v1));
}

/// The bytes of a record for the place of the left stick.
pub fn left_stick_payload(cal: &StickCalibration) -> (payload: Vec<u8>)
    requires
        cal.wf(),
    ensures
        payload@ == left_record(*cal),
{
    let mut payload: Vec<u8> = Vec::new();
    push_pair(&mut payload, cal.xmax - cal.xcenter, cal.ymax - cal.ycenter);
    push_pair(&mut payload, cal.xcenter, cal.ycenter);
    push_pair(&mut payload, cal.xcenter - cal.xmin, cal.ycenter - cal.ymin);
    assert(payload@ =~= left_record(*cal));
    payload
}

/// The bytes of a record for the place of the right stick.
pub fn right_stick_payload(cal: &StickCalibration) -> (payload: Vec<u8>)
    requires
        cal.wf(),
    ensures
        payload@ == right_record(*cal),
{
    let mut payload: Vec<u8> = Vec::new();
    push_pair(&mut payload, cal.xcenter, cal.ycenter);
    push_pair(&mut payload, cal.xcenter - cal.xmin, cal.ycenter - cal.ymin);
    push_pair(&mut payload, cal.xmax - cal.xcenter, cal.ymax - cal.ycenter);
    assert(payload@ =~= right_record(*cal));
    payload
}

/// The three bytes of a pair as a payload.
fn pair_payload(v0: u16, v1: u16) -> (payload: Vec<u8>)
    ensures
        payload@ == pack_pair(v0, v1),
{
    let mut payload: Vec<u8> = Vec::new();
    push_pair(&mut payload, v0, v1);
    assert(payload@ =~= pack_pair(v0, v1));
    payload
}

/// Tells whether a calibration can be written.
pub fn can_write_calibration(
    kind: ControllerType,
    left: &StickCalibration,
    right: &StickCalibration,
    left_deadzone: u16,
    right_deadzone: u16,
) -> (valid: bool)
    ensures
        valid == plan_valid(kind, *left, *right, left_deadzone, right_deadzone),
{
    let left_ok = left.is_valid() && left_deadzone <= MAX_12BIT;
    let right_ok = right.is_valid() && right_deadzone <= MAX_12BIT;
    match kind {
        ControllerType::JoyConL => left_ok,
        ControllerType::JoyConR => right_ok,
        ControllerType::ProController => left_ok && right_ok,
    }
}

/// The blocks that hold a calibration, in the order in which they are
/// written, or nothing if the calibration cannot be written.
pub fn calibration_blocks(
    kind: ControllerType,
    left: &StickCalibration,
    right: &StickCalibration,
    left_deadzone: u16,
    right_deadzone: u16,
) -> (plan: Option<Vec<SpiBlock>>)
    ensures
        plan is Some <==> plan_valid(kind, *left, *right, left_deadzone, right_deadzone),
        plan matches Some(blocks) ==> blocks_of(blocks@) == calibration_plan(
            kind,
            *left,
            *right,
            left_deadzone,
            right_deadzone,
        ),
{
    if !can_write_calibration(kind, left, right, left_deadzone, right_deadzone) {
        return None;
    }
    let (left_cal, right_cal, left_block, right_block) = match kind {
        ControllerType::JoyConL => (
            left,
            left,
            pair_payload(left_deadzone, RANGE_RATIO),
            pair_payload(left_deadzone, RANGE_RATIO),
        ),
        ControllerType::JoyConR => (
            right,
            right,
            pair_payload(RANGE_RATIO, right_deadzone),
            pair_payload(RANGE_RATIO, right_deadzone),
        ),
        ControllerType::ProController => (
            left,
            right,
            pair_payload(left_deadzone, RANGE_RATIO),
            pair_payload(RANGE_RATIO, right_deadzone),
        ),
    };
    let mut blocks: Vec<SpiBlock> = Vec::new();
    blocks.push(SpiBlock { address: RIGHT_STICK_CAL_ADDR, payload: right_stick_payload(right_cal) });
    blocks.push(SpiBlock { address: RIGHT_STICK_PARAMS_ADDR, payload: right_block });
    blocks.push(SpiBlock { address: LEFT_STICK_CAL_ADDR, payload: left_stick_payload(left_cal) });
    blocks.push(SpiBlock { address: LEFT_STICK_PARAMS_ADDR, payload: left_block });
    assert(blocks_of(blocks@) =~~= calibration_plan(
        kind,
        *left,
        *right,
        left_deadzone,
        right_deadzone,
    ));
    Some(blocks)
}

/// A controller with one stick gets the data of that stick in both places.
/// The two parameter blocks are the same bytes. The two records hold the
/// same three pairs, in the order of their place; so the records are the
/// same bytes exactly when the three pairs are.
pub proof fn lemma_single_stick_mirrored(
    kind: ControllerType,
    left: StickCalibration,
    right: StickCalibration,
    left_deadzone: u16,
    right_deadzone: u16,
)
    requires
        kind != ControllerType::ProController,
    ensures
        ({
            let plan = calibration_plan(kind, left, right, left_deadzone, right_deadzone);
            let stick = if kind == ControllerType::JoyConL {
                left
            } else {
                right
            };
            &&& plan[1].payload == plan[3].payload
            &&& plan[0].payload == right_record(stick)
            &&& plan[2].payload == left_record(stick)
            &&& plan[0].payload == plan[2].payload.subrange(3, 9) + plan[2].payload.subrange(0, 3)
            &&& plan[0].payload == plan[2].payload <==> above_center(stick) == at_center(stick)
                && at_center(stick) == below_center(stick)
        }),
{
    let plan = calibration_plan(kind, left, right, left_deadzone, right_deadzone);
    let stick = if kind == ControllerType::JoyConL {
        left
    } else {
        right
    };
    let a = above_center(stick);
    let b = at_center(stick);
    let c = below_center(stick);
    let l = left_record(stick);
    let r = right_record(stick);
    assert(r =~= l.subrange(3, 9) + l.subrange(0, 3));
    if l == r {
        assert(a =~= l.subrange(0, 3));
        assert(b =~= r.subrange(0, 3));
        assert(b =~= l.subrange(3, 6));
        assert(c =~= r.subrange(3, 6));
    }
    if a == b && b == c {
        assert(l =~= r);
    }
}

/// What belongs to the stick that a controller lacks does not reach the
/// flash.
pub proof fn lemma_missing_stick_ignored(
    kind: ControllerType,
    left: StickCalibration,
    right: StickCalibration,
    left_deadzone: u16,
    right_deadzone: u16,
    other: StickCalibration,
    other_deadzone: u16,
)
    ensures
        kind == ControllerType::JoyConL ==> calibration_plan(
            kind,
            left,
            other,
            left_deadzone,
            other_deadzone,
        ) == calibration_plan(kind, left, right, left_deadzone, right_deadzone),
        kind == ControllerType::JoyConR ==> calibration_plan(
            kind,
            other,
            right,
            other_deadzone,
            right_deadzone,
        ) == calibration_plan(kind, left, right, left_deadzone, right_deadzone),
{
}

/// On a controller with two sticks each stick has its own data: a change of
/// the data of one stick changes nothing in the blocks of the other.
pub proof fn lemma_two_sticks_independent(
    left: StickCalibration,
    right: StickCalibration,
    left_deadzone: u16,
    right_deadzone: u16,
    other: StickCalibration,
    other_deadzone: u16,
)
    ensures
        ({
            let kind = ControllerType::ProController;
            let plan = calibration_plan(kind, left, right, left_deadzone, right_deadzone);
            let left_changed = calibration_plan(kind, other, right, other_deadzone, right_deadzone);
            let right_changed = calibration_plan(kind, left, other, left_deadzone, other_deadzone);
            &&& left_changed[0] == plan[0]
            &&& left_changed[1] == plan[1]
            &&& right_changed[2] == plan[2]
            &&& right_changed[3] == plan[3]
        }),
{
}

} // verus!
