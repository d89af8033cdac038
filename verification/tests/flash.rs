use rustjoycal::flash::{
    calibration_blocks, can_write_calibration, left_stick_payload, right_stick_payload, SpiBlock,
    LEFT_STICK_CAL_ADDR, LEFT_STICK_PARAMS_ADDR, RIGHT_STICK_CAL_ADDR, RIGHT_STICK_PARAMS_ADDR,
};
use rustjoycal::model::{ControllerType, StickCalibration};

fn left_stick() -> StickCalibration {
    StickCalibration {
        xmin: 0x150,
        xcenter: 0x800,
        xmax: 0xEB0,
        ymin: 0x200,
        ycenter: 0x7F0,
        ymax: 0xE00,
    }
}

fn right_stick() -> StickCalibration {
    StickCalibration {
        xmin: 0x100,
        xcenter: 0x7C0,
        xmax: 0xF00,
        ymin: 0x180,
        ycenter: 0x810,
        ymax: 0xE80,
    }
}

fn degenerate() -> StickCalibration {
    StickCalibration { xmin: 0xFFF, xcenter: 0x800, xmax: 0, ymin: 0xFFF, ycenter: 0x800, ymax: 0 }
}

fn payloads(blocks: &[SpiBlock]) -> Vec<Vec<u8>> {
    blocks.iter().map(|b| b.payload.clone()).collect()
}

#[test]
fn left_record_packs_above_center_below() {
    assert_eq!(
        left_stick_payload(&left_stick()),
        vec![0xB0, 0x06, 0x61, 0x00, 0x08, 0x7F, 0xB0, 0x06, 0x5F]
    );
}

#[test]
fn right_record_packs_center_below_above() {
    assert_eq!(
        right_stick_payload(&left_stick()),
        vec![0x00, 0x08, 0x7F, 0xB0, 0x06, 0x5F, 0xB0, 0x06, 0x61]
    );
}

#[test]
fn blocks_come_in_commit_order() {
    let blocks = calibration_blocks(
        ControllerType::ProController,
        &left_stick(),
        &right_stick(),
        0x080,
        0x0A0,
    )
    .unwrap();
    let addresses: Vec<u32> = blocks.iter().map(|b| b.address).collect();
    assert_eq!(
        addresses,
        vec![
            RIGHT_STICK_CAL_ADDR,
            RIGHT_STICK_PARAMS_ADDR,
            LEFT_STICK_CAL_ADDR,
            LEFT_STICK_PARAMS_ADDR
        ]
    );
    assert_eq!(addresses, vec![0x6046, 0x609B, 0x603D, 0x6089]);
    assert_eq!(blocks[0].payload, right_stick_payload(&right_stick()));
    assert_eq!(blocks[1].payload, vec![0x80, 0x0F, 0x0A]);
    assert_eq!(blocks[2].payload, left_stick_payload(&left_stick()));
    assert_eq!(blocks[3].payload, vec![0x80, 0x00, 0xF8]);
    assert_eq!(blocks[0].payload.len(), 9);
    assert_eq!(blocks[2].payload.len(), 9);
}

#[test]
fn left_unit_mirrors_the_left_stick() {
    let blocks =
        calibration_blocks(ControllerType::JoyConL, &left_stick(), &right_stick(), 0x080, 0x0A0)
            .unwrap();
    assert_eq!(blocks[1].payload, blocks[3].payload);
    assert_eq!(blocks[3].payload, vec![0x80, 0x00, 0xF8]);
    assert_eq!(blocks[0].payload, right_stick_payload(&left_stick()));
    assert_eq!(blocks[2].payload, left_stick_payload(&left_stick()));
    let mut rotated = blocks[2].payload[3..9].to_vec();
    rotated.extend_from_slice(&blocks[2].payload[0..3]);
    assert_eq!(blocks[0].payload, rotated);
}

#[test]
fn left_unit_ignores_the_right_stick() {
    let with_right =
        calibration_blocks(ControllerType::JoyConL, &left_stick(), &right_stick(), 0x080, 0x0A0)
            .unwrap();
    let without =
        calibration_blocks(ControllerType::JoyConL, &left_stick(), &degenerate(), 0x080, 0xFFFF)
            .unwrap();
    assert_eq!(with_right, without);
}

#[test]
fn left_unit_with_equal_pairs_writes_equal_records() {
    let symmetric = StickCalibration {
        xmin: 0,
        xcenter: 0x400,
        xmax: 0x800,
        ymin: 0,
        ycenter: 0x300,
        ymax: 0x600,
    };
    let blocks =
        calibration_blocks(ControllerType::JoyConL, &symmetric, &right_stick(), 0x080, 0x0A0)
            .unwrap();
    assert_eq!(blocks[0].payload, blocks[2].payload);
    assert_eq!(blocks[1].payload, blocks[3].payload);
}

#[test]
fn right_unit_mirrors_the_right_stick() {
    let blocks =
        calibration_blocks(ControllerType::JoyConR, &degenerate(), &right_stick(), 0xFFFF, 0x0A0)
            .unwrap();
    assert_eq!(blocks[1].payload, blocks[3].payload);
    assert_eq!(blocks[1].payload, vec![0x80, 0x0F, 0x0A]);
    assert_eq!(blocks[0].payload, right_stick_payload(&right_stick()));
    assert_eq!(blocks[2].payload, left_stick_payload(&right_stick()));
}

#[test]
fn pro_unit_keeps_the_sticks_apart() {
    let base = calibration_blocks(
        ControllerType::ProController,
        &left_stick(),
        &right_stick(),
        0x080,
        0x0A0,
    )
    .unwrap();
    let other_left = StickCalibration { xmin: 0x010, ymax: 0xFFF, ..left_stick() };
    let changed =
        calibration_blocks(ControllerType::ProController, &other_left, &right_stick(), 0x011, 0x0A0)
            .unwrap();
    assert_eq!(payloads(&base)[0], payloads(&changed)[0]);
    assert_eq!(payloads(&base)[1], payloads(&changed)[1]);
    assert_ne!(payloads(&base)[2], payloads(&changed)[2]);
    assert_ne!(payloads(&base)[3], payloads(&changed)[3]);
}

#[test]
fn degenerate_calibration_has_no_blocks() {
    assert!(calibration_blocks(
        ControllerType::ProController,
        &left_stick(),
        &degenerate(),
        0x080,
        0x0A0
    )
    .is_none());
    assert!(calibration_blocks(
        ControllerType::JoyConR,
        &left_stick(),
        &degenerate(),
        0x080,
        0x0A0
    )
    .is_none());
    assert!(calibration_blocks(
        ControllerType::JoyConL,
        &left_stick(),
        &right_stick(),
        0x1000,
        0x0A0
    )
    .is_none());
    assert!(!can_write_calibration(
        ControllerType::ProController,
        &left_stick(),
        &right_stick(),
        0x080,
        0x1000
    ));
    assert!(can_write_calibration(
        ControllerType::ProController,
        &left_stick(),
        &right_stick(),
        0xFFF,
        0xFFF
    ));
}
