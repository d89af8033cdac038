use rustjoycal::model::{
    center_of, deadzone_for, deadzone_of, diagonal_deadzone, CalibrationData, CalibrationState,
    DeadzoneRule, StickCalibration, StickData,
};

fn sample(lx: u16, ly: u16, rx: u16, ry: u16) -> StickData {
    StickData { lx, ly, rx, ry }
}

#[test]
fn stick_data_rests_at_mid_scale() {
    assert_eq!(StickData::default(), sample(0x800, 0x800, 0x800, 0x800));
}

#[test]
fn calibration_record_defaults_to_zero() {
    let record = StickCalibration::default();
    assert_eq!(
        record,
        StickCalibration { xmax: 0, ymax: 0, xcenter: 0, ycenter: 0, xmin: 0, ymin: 0 }
    );
    assert!(record.is_valid());
}

#[test]
fn record_is_valid_only_in_order_and_within_twelve_bits() {
    let good = StickCalibration {
        xmin: 0x150,
        xcenter: 0x800,
        xmax: 0xEB0,
        ymin: 0x200,
        ycenter: 0x7F0,
        ymax: 0xE00,
    };
    assert!(good.is_valid());
    assert!(!StickCalibration { xmin: 0x801, ..good }.is_valid());
    assert!(!StickCalibration { xmax: 0x7FF, ..good }.is_valid());
    assert!(!StickCalibration { ymin: 0x7F1, ..good }.is_valid());
    assert!(!StickCalibration { ymax: 0x1000, ..good }.is_valid());
}

#[test]
fn extent_starts_seeded() {
    let extent = CalibrationState::new();
    assert_eq!(extent.min_lx, 0xFFF);
    assert_eq!(extent.max_lx, 0);
    assert_eq!(extent.min_ry, 0xFFF);
    assert_eq!(extent.max_ry, 0);
    assert_eq!(CalibrationState::default().min_lx, 0);
}

#[test]
fn first_sample_narrows_the_seeded_extent() {
    let mut extent = CalibrationState::new();
    extent.update(&sample(0x700, 0x710, 0x720, 0x730));
    assert_eq!((extent.min_lx, extent.max_lx), (0x700, 0x700));
    assert_eq!((extent.min_ly, extent.max_ly), (0x710, 0x710));
    assert_eq!((extent.min_rx, extent.max_rx), (0x720, 0x720));
    assert_eq!((extent.min_ry, extent.max_ry), (0x730, 0x730));
}

#[test]
fn extent_only_widens() {
    let samples = [
        sample(0x800, 0x800, 0x800, 0x800),
        sample(0x780, 0x860, 0x900, 0x100),
        sample(0x880, 0x7A0, 0x850, 0x400),
        sample(0x800, 0x800, 0x800, 0x800),
    ];
    let mut extent = CalibrationState::new();
    let mut before = extent;
    for s in samples.iter() {
        extent.update(s);
        assert!(extent.min_lx <= before.min_lx && extent.max_lx >= before.max_lx);
        assert!(extent.min_ly <= before.min_ly && extent.max_ly >= before.max_ly);
        assert!(extent.min_rx <= before.min_rx && extent.max_rx >= before.max_rx);
        assert!(extent.min_ry <= before.min_ry && extent.max_ry >= before.max_ry);
        assert!(extent.min_lx <= s.lx && s.lx <= extent.max_lx);
        before = extent;
    }
    assert_eq!((extent.min_lx, extent.max_lx), (0x780, 0x880));
    assert_eq!((extent.min_ly, extent.max_ly), (0x7A0, 0x860));
    assert_eq!((extent.min_rx, extent.max_rx), (0x800, 0x900));
    assert_eq!((extent.min_ry, extent.max_ry), (0x100, 0x800));
}

#[test]
fn update_is_idempotent_and_order_independent() {
    let a = sample(0x100, 0xF00, 0x300, 0x400);
    let b = sample(0xE00, 0x200, 0x250, 0x900);
    let mut ab = CalibrationState::new();
    ab.update(&a);
    ab.update(&b);
    let mut ba = CalibrationState::new();
    ba.update(&b);
    ba.update(&a);
    assert_eq!(ab, ba);
    let mut again = ab;
    again.update(&a);
    assert_eq!(again, ab);
}

#[test]
fn data_derives_center_and_deadzone_at_every_step() {
    let mut data = CalibrationData::new();
    assert_eq!(data.center_lx, 0);
    assert_eq!(data.deadzone_l, 0);
    for s in [
        sample(0x780, 0x7A0, 0x700, 0x800),
        sample(0x880, 0x860, 0x901, 0x800),
        sample(0x800, 0x800, 0x800, 0x802),
    ] {
        data.update(&s);
        let e = data.extent;
        assert_eq!(data.center_lx, (e.min_lx + e.max_lx) / 2);
        assert_eq!(data.center_ly, (e.min_ly + e.max_ly) / 2);
        assert_eq!(data.center_rx, (e.min_rx + e.max_rx) / 2);
        assert_eq!(data.center_ry, (e.min_ry + e.max_ry) / 2);
        assert_eq!(data.deadzone_l, (e.max_lx - e.min_lx) / 2);
        assert_eq!(data.deadzone_r, (e.max_rx - e.min_rx) / 2);
    }
    assert_eq!(data.center_lx, 0x800);
    assert_eq!(data.center_ly, 0x800);
    assert_eq!(data.center_rx, 0x800);
    assert_eq!(data.center_ry, 0x801);
    assert_eq!(data.deadzone_l, 0x080);
    assert_eq!(data.deadzone_r, 0x100);
}

#[test]
fn center_and_deadzone_formulas() {
    assert_eq!(center_of(0x780, 0x880), 0x800);
    assert_eq!(center_of(0x7A0, 0x8C0), 0x830);
    assert_eq!(center_of(0, 1), 0);
    assert_eq!(center_of(0xFFFF, 0xFFFF), 0xFFFF);
    assert_eq!(deadzone_of(0x780, 0x880), 0x080);
    assert_eq!(deadzone_of(0x780, 0x781), 0);
    assert_eq!(deadzone_of(0xFFF, 0), 0);
}

#[test]
fn twelve_bit_samples_are_valid() {
    assert!(sample(0xFFF, 0, 0x800, 0x123).is_valid());
    assert!(!sample(0x1000, 0, 0, 0).is_valid());
    assert!(!sample(0, 0, 0, 0xFFFF).is_valid());
}

#[test]
fn diagonal_deadzone_is_half_the_distance_of_the_corners() {
    assert_eq!(diagonal_deadzone(0x780, 0x880, 0x7A0, 0x860), 0xA0);
    assert_eq!(diagonal_deadzone(0, 3, 0, 4), 2);
    assert_eq!(diagonal_deadzone(0, 1, 0, 1), 0);
    assert_eq!(diagonal_deadzone(0, 2, 0, 0), 1);
    assert_eq!(diagonal_deadzone(5, 5, 9, 9), 0);
    assert_eq!(diagonal_deadzone(0, 0xFFF, 0, 0xFFF), 2895);
    assert_eq!(diagonal_deadzone(0xFFF, 0, 0xFFF, 0), 2895);
    assert_eq!(diagonal_deadzone(0, 0xFFFF, 0, 0xFFFF), 46340);
}

#[test]
fn diagonal_deadzone_rounds_down() {
    for (dx, dy) in [(6u16, 8u16), (7, 8), (8, 8), (100, 0), (101, 0), (0x123, 0x456)] {
        let r = diagonal_deadzone(0, dx, 0, dy) as u64;
        let s = dx as u64 * dx as u64 + dy as u64 * dy as u64;
        assert!(4 * r * r <= s && s < 4 * (r + 1) * (r + 1));
    }
}

#[test]
fn deadzone_follows_the_rule() {
    assert_eq!(deadzone_for(DeadzoneRule::Axis, 0x780, 0x880, 0x7A0, 0x860), 0x80);
    assert_eq!(deadzone_for(DeadzoneRule::Diagonal, 0x780, 0x880, 0x7A0, 0x860), 0xA0);
    let mut data = CalibrationData::with_rule(DeadzoneRule::Diagonal);
    data.update(&sample(0x780, 0x7A0, 0x800, 0x800));
    data.update(&sample(0x880, 0x860, 0x803, 0x804));
    assert_eq!(data.deadzone_l, 0xA0);
    assert_eq!(data.deadzone_r, 2);
    assert_eq!(data.center_lx, 0x800);
    assert_eq!(CalibrationData::new().rule, DeadzoneRule::Axis);
}
