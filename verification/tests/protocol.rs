use rustjoycal::controller::{Connect, Controller, Next, Outcome};
use rustjoycal::model::{ControllerType, StickCalibration, StickData};
use rustjoycal::protocol::ControllerError;

/// What a simulated transport saw of a request.
#[derive(Default)]
struct Trace {
    reports: Vec<Vec<u8>>,
    reads: Vec<(usize, i32)>,
    sleeps: Vec<u64>,
}

/// A simulated transport: it takes every output report, answers each read
/// with what `answer` gives for the number of the read and the last report
/// sent, and never really pauses.
fn drive(
    first: Next,
    mut answer: impl FnMut(usize, Option<&Vec<u8>>) -> Option<Vec<u8>>,
) -> (Controller, Outcome, Trace) {
    let mut trace = Trace::default();
    let mut next = first;
    loop {
        next = match next {
            Next::Write(pending) => {
                trace.reports.push(pending.report().to_vec());
                pending.written(true)
            }
            Next::Read(pending) => {
                trace.reads.push((pending.capacity(), pending.timeout_ms()));
                let data = answer(trace.reads.len() - 1, trace.reports.last());
                pending.received(data.as_deref())
            }
            Next::Sleep(pending) => {
                trace.sleeps.push(pending.millis());
                pending.rested()
            }
            Next::Done(controller, outcome) => return (controller, outcome, trace),
        };
    }
}

fn reply(class: u8, subcommand: u8) -> Vec<u8> {
    let mut report = vec![0u8; 49];
    report[0x0D] = class;
    report[0x0E] = subcommand;
    report
}

fn ack() -> Vec<u8> {
    reply(0x80, 0x11)
}

fn sticks(lx: u16, ly: u16, rx: u16, ry: u16) -> Vec<u8> {
    let mut report = vec![0u8; 49];
    report[0] = 0x30;
    report[6] = (lx & 0xFF) as u8;
    report[7] = ((lx >> 8) as u8) | (((ly & 0xF) as u8) << 4);
    report[8] = (ly >> 4) as u8;
    report[9] = (rx & 0xFF) as u8;
    report[10] = ((rx >> 8) as u8) | (((ry & 0xF) as u8) << 4);
    report[11] = (ry >> 4) as u8;
    report
}

fn left_stick() -> StickCalibration {
    StickCalibration {
        xmin: 0x150,
        xcenter: 0x800,
        xmax: 0xEB0,
        ymin: 0x200,
        ycenter: 0x7F0,
        ymax: 0xE00,
    }
}

fn right_stick() -> StickCalibration {
    StickCalibration {
        xmin: 0x100,
        xcenter: 0x7C0,
        xmax: 0xF00,
        ymin: 0x180,
        ycenter: 0x810,
        ymax: 0xE80,
    }
}

fn is_failure(outcome: &Outcome, expected: ControllerError, written: usize) -> bool {
    matches!(outcome, Outcome::Failed { error, blocks_written }
        if *error == expected && *blocks_written == written)
}

#[test]
fn connect_takes_the_first_device_that_opens() {
    for (left, right, pro, expected) in [
        (true, true, true, Some(ControllerType::JoyConL)),
        (true, false, false, Some(ControllerType::JoyConL)),
        (false, true, true, Some(ControllerType::JoyConR)),
        (false, true, false, Some(ControllerType::JoyConR)),
        (false, false, true, Some(ControllerType::ProController)),
        (false, false, false, None),
    ] {
        let mut opened: Vec<(u16, u16)> = Vec::new();
        let mut probe = Controller::connect();
        let found = loop {
            opened.push((probe.vendor_id(), probe.product_id()));
            let ok = match probe.candidate {
                ControllerType::JoyConL => left,
                ControllerType::JoyConR => right,
                ControllerType::ProController => pro,
            };
            match probe.opened(ok) {
                Connect::Try(next) => probe = next,
                Connect::Connected(controller) => break Some(controller.get_controller_type()),
                Connect::Failed(error) => {
                    assert_eq!(error, ControllerError::DeviceNotFound);
                    break None;
                }
            }
        };
        assert_eq!(found, expected);
        let all = [(0x057E, 0x2006), (0x057E, 0x2007), (0x057E, 0x2009)];
        let tried = match expected {
            Some(ControllerType::JoyConL) => 1,
            Some(ControllerType::JoyConR) => 2,
            _ => 3,
        };
        assert_eq!(opened, all[..tried].to_vec());
    }
}

#[test]
fn device_info_is_read_from_the_first_answer() {
    let controller = Controller::new(ControllerType::ProController);
    let (controller, outcome, trace) = drive(controller.get_device_info(), |n, _| {
        if n < 2 {
            Some(sticks(0x800, 0x800, 0x800, 0x800))
        } else {
            let mut report = reply(0x82, 0x02);
            report[0x0F] = 0x03;
            report[0x10] = 0x48;
            report[0x13..0x19].copy_from_slice(&[0x7C, 0xBB, 0x8A, 0x01, 0x02, 0x0F]);
            Some(report)
        }
    });
    match outcome {
        Outcome::DeviceInfo(firmware, mac) => {
            assert_eq!(firmware, "3.48");
            assert_eq!(mac, "7C:BB:8A:01:02:0F");
        }
        other => panic!("unexpected outcome {:?}", other),
    }
    assert_eq!(trace.reports.len(), 1);
    assert_eq!(trace.reports[0][0], 0x01);
    assert_eq!(trace.reports[0][1], 0x00);
    assert_eq!(trace.reports[0][10], 0x02);
    assert_eq!(trace.reads, vec![(49, 64); 3]);
    assert!(trace.sleeps.is_empty());
    assert_eq!(controller.get_controller_type(), ControllerType::ProController);
}

#[test]
fn device_info_is_given_up_after_twenty_attempts() {
    let controller = Controller::new(ControllerType::JoyConL);
    let (_, outcome, trace) = drive(controller.get_device_info(), |_, _| Some(Vec::new()));
    assert!(is_failure(&outcome, ControllerError::DeviceInfoUnavailable, 0));
    assert_eq!(trace.reports.len(), 20);
    assert_eq!(trace.reads.len(), 20 * 8);
    assert!(trace.sleeps.is_empty());
}

#[test]
fn failed_read_ends_the_attempt() {
    let controller = Controller::new(ControllerType::JoyConL);
    let (_, outcome, trace) = drive(controller.get_device_info(), |_, _| None);
    assert!(is_failure(&outcome, ControllerError::DeviceInfoUnavailable, 0));
    assert_eq!(trace.reports.len(), 20);
    assert_eq!(trace.reads.len(), 20);
}

#[test]
fn short_reply_counts_as_no_answer() {
    let controller = Controller::new(ControllerType::JoyConL);
    let (_, outcome, _) =
        drive(controller.get_device_info(), |_, _| Some(reply(0x82, 0x02)[..24].to_vec()));
    assert!(is_failure(&outcome, ControllerError::DeviceInfoUnavailable, 0));
}

#[test]
fn enabling_input_sends_once_and_settles() {
    let controller = Controller::new(ControllerType::JoyConR);
    let (_, outcome, trace) =
        drive(controller.enable_standard_input(), |_, _| panic!("no read expected"));
    assert!(matches!(outcome, Outcome::InputEnabled));
    assert_eq!(trace.reports.len(), 1);
    assert_eq!(trace.reports[0][10], 0x03);
    assert_eq!(trace.reports[0][11], 0x30);
    assert_eq!(trace.sleeps, vec![100]);
}

#[test]
fn refused_report_fails_the_request() {
    let controller = Controller::new(ControllerType::JoyConR);
    let outcome = match controller.enable_standard_input() {
        Next::Write(pending) => match pending.written(false) {
            Next::Done(_, outcome) => outcome,
            _ => panic!("the request should be over"),
        },
        _ => panic!("a report should be sent first"),
    };
    assert!(is_failure(&outcome, ControllerError::TransportFailed, 0));
}

#[test]
fn counter_rolls_with_every_command() {
    let mut controller = Controller::new(ControllerType::ProController);
    let mut seen: Vec<u8> = Vec::new();
    for _ in 0..18 {
        let (back, _, trace) = drive(controller.enable_standard_input(), |_, _| None);
        seen.push(trace.reports[0][1]);
        controller = back;
    }
    let expected: Vec<u8> = (0..18).map(|n| n % 16).collect();
    assert_eq!(seen, expected);
}

#[test]
fn counter_rolls_over_attempts_of_one_request() {
    let controller = Controller::new(ControllerType::ProController);
    let (controller, _, trace) = drive(controller.write_spi_data(0x6089, &[1, 2, 3]), |_, _| None);
    let counters: Vec<u8> = trace.reports.iter().map(|r| r[1]).collect();
    let expected: Vec<u8> = (0..20).map(|n| n % 16).collect();
    assert_eq!(counters, expected);
    let (_, _, trace) = drive(controller.enable_standard_input(), |_, _| None);
    assert_eq!(trace.reports[0][1], 20 % 16);
}

#[test]
fn spi_write_succeeds_on_acknowledgement() {
    let controller = Controller::new(ControllerType::ProController);
    let (_, outcome, trace) =
        drive(controller.write_spi_data(0x6089, &[0x80, 0x00, 0xF8]), |n, _| {
            if n == 2 {
                Some(ack())
            } else {
                Some(sticks(0x800, 0x800, 0x800, 0x800))
            }
        });
    assert!(matches!(outcome, Outcome::Written));
    assert_eq!(trace.reports.len(), 1);
    let report = &trace.reports[0];
    assert_eq!(report.len(), 49);
    assert_eq!(report[10], 0x11);
    assert_eq!(&report[11..15], &[0x89, 0x60, 0x00, 0x00]);
    assert_eq!(report[15], 3);
    assert_eq!(&report[16..19], &[0x80, 0x00, 0xF8]);
    assert_eq!(trace.reads, vec![(49, 64); 3]);
    assert_eq!(trace.sleeps, vec![100]);
}

#[test]
fn spi_write_without_acknowledgement_is_tried_twenty_times() {
    let controller = Controller::new(ControllerType::ProController);
    let (_, outcome, trace) = drive(controller.write_spi_data(0x603D, &[9; 9]), |_, _| {
        Some(sticks(0x800, 0x800, 0x800, 0x800))
    });
    assert!(is_failure(&outcome, ControllerError::SpiWriteFailed, 0));
    assert_eq!(trace.reports.len(), 20);
    assert_eq!(trace.reads.len(), 20 * 8);
    assert!(trace.reads.iter().all(|r| *r == (49, 64)));
    assert_eq!(trace.sleeps, vec![10; 20]);
}

#[test]
fn spi_write_with_timeouts_only_is_tried_twenty_times() {
    let controller = Controller::new(ControllerType::ProController);
    let (_, outcome, trace) =
        drive(controller.write_spi_data(0x603D, &[9; 9]), |_, _| Some(Vec::new()));
    assert!(is_failure(&outcome, ControllerError::SpiWriteFailed, 0));
    assert_eq!(trace.reports.len(), 20);
    assert_eq!(trace.reads.len(), 160);
}

#[test]
fn spi_write_is_acknowledged_on_a_later_attempt() {
    let controller = Controller::new(ControllerType::ProController);
    let (_, outcome, trace) = drive(controller.write_spi_data(0x603D, &[9; 9]), |n, _| {
        if n == 8 * 4 + 5 {
            Some(ack())
        } else {
            Some(reply(0x80, 0x10))
        }
    });
    assert!(matches!(outcome, Outcome::Written));
    assert_eq!(trace.reports.len(), 5);
    assert_eq!(trace.sleeps, vec![10, 10, 10, 10, 100]);
}

#[test]
fn calibration_is_written_right_stick_first() {
    let controller = Controller::new(ControllerType::ProController);
    let first = controller.write_calibration_to_device(
        left_stick(),
        right_stick(),
        0x080,
        0x0A0,
        false,
    );
    let (_, outcome, trace) = drive(first, |_, _| Some(ack()));
    assert!(matches!(outcome, Outcome::Written));
    let addresses: Vec<Vec<u8>> = trace.reports.iter().map(|r| r[11..15].to_vec()).collect();
    assert_eq!(
        addresses,
        vec![
            vec![0x46, 0x60, 0, 0],
            vec![0x9B, 0x60, 0, 0],
            vec![0x3D, 0x60, 0, 0],
            vec![0x89, 0x60, 0, 0]
        ]
    );
    let lengths: Vec<u8> = trace.reports.iter().map(|r| r[15]).collect();
    assert_eq!(lengths, vec![9, 3, 9, 3]);
    assert_eq!(&trace.reports[1][16..19], &[0x80, 0x0F, 0x0A]);
    assert_eq!(
        &trace.reports[2][16..25],
        &[0xB0, 0x06, 0x61, 0x00, 0x08, 0x7F, 0xB0, 0x06, 0x5F]
    );
    assert_eq!(&trace.reports[3][16..19], &[0x80, 0x00, 0xF8]);
    assert_eq!(trace.sleeps, vec![100; 4]);
    let counters: Vec<u8> = trace.reports.iter().map(|r| r[1]).collect();
    assert_eq!(counters, vec![0, 1, 2, 3]);
}

#[test]
fn left_unit_writes_the_left_stick_to_both_places() {
    let controller = Controller::new(ControllerType::JoyConL);
    let first = controller.write_calibration_to_device(
        left_stick(),
        StickCalibration::default(),
        0x080,
        0xFFFF,
        false,
    );
    let (_, outcome, trace) = drive(first, |_, _| Some(ack()));
    assert!(matches!(outcome, Outcome::Written));
    assert_eq!(&trace.reports[1][15..19], &trace.reports[3][15..19]);
    assert_eq!(
        &trace.reports[0][16..25],
        &[0x00, 0x08, 0x7F, 0xB0, 0x06, 0x5F, 0xB0, 0x06, 0x61]
    );
    assert_eq!(
        &trace.reports[2][16..25],
        &[0xB0, 0x06, 0x61, 0x00, 0x08, 0x7F, 0xB0, 0x06, 0x5F]
    );
}

#[test]
fn failed_block_ends_the_calibration_and_tells_what_was_written() {
    let controller = Controller::new(ControllerType::ProController);
    let first = controller.write_calibration_to_device(
        left_stick(),
        right_stick(),
        0x080,
        0x0A0,
        false,
    );
    let (_, outcome, trace) = drive(first, |_, report| {
        let address = &report.unwrap()[11..13];
        if address == [0x3D, 0x60] {
            Some(Vec::new())
        } else {
            Some(ack())
        }
    });
    assert!(is_failure(&outcome, ControllerError::SpiWriteFailed, 2));
    assert_eq!(trace.reports.len(), 2 + 20);
    assert!(trace.reports.iter().all(|r| r[11..13] != [0x89, 0x60]));
}

#[test]
fn failure_of_the_first_block_is_a_clean_failure() {
    let controller = Controller::new(ControllerType::ProController);
    let first = controller.write_calibration_to_device(
        left_stick(),
        right_stick(),
        0x080,
        0x0A0,
        false,
    );
    let (_, outcome, trace) = drive(first, |_, _| None);
    assert!(is_failure(&outcome, ControllerError::SpiWriteFailed, 0));
    assert_eq!(trace.reports.len(), 20);
}

#[test]
fn degenerate_calibration_is_refused_before_any_write() {
    let controller = Controller::new(ControllerType::ProController);
    let never_moved = StickCalibration {
        xmin: 0xFFF,
        xcenter: 0x800,
        xmax: 0,
        ymin: 0xFFF,
        ycenter: 0x800,
        ymax: 0,
    };
    let first =
        controller.write_calibration_to_device(left_stick(), never_moved, 0x080, 0x0A0, false);
    match first {
        Next::Done(_, outcome) => {
            assert!(is_failure(&outcome, ControllerError::InvalidCalibration, 0))
        }
        _ => panic!("nothing should be sent"),
    }
}

#[test]
fn stick_read_keeps_the_newest_buffered_report() {
    let controller = Controller::new(ControllerType::ProController);
    let (_, outcome, trace) = drive(controller.read_stick_data(), |n, _| match n {
        0 => Some(sticks(0x100, 0x200, 0x300, 0x400)),
        1 => Some(sticks(0x111, 0x222, 0x333, 0x444)),
        2 => Some(vec![0u8; 12]),
        _ => Some(Vec::new()),
    });
    match outcome {
        Outcome::StickData(data) => {
            assert_eq!(data, StickData { lx: 0x111, ly: 0x222, rx: 0x333, ry: 0x444 })
        }
        other => panic!("unexpected outcome {:?}", other),
    }
    assert!(trace.reports.is_empty());
    assert_eq!(trace.reads, vec![(0x170, 0); 4]);
}

#[test]
fn stick_read_waits_when_nothing_is_buffered() {
    let controller = Controller::new(ControllerType::ProController);
    let (_, outcome, trace) = drive(controller.read_stick_data(), |n, _| match n {
        0 => Some(Vec::new()),
        _ => Some(sticks(0x7FF, 0x801, 0x123, 0xFFF)),
    });
    match outcome {
        Outcome::StickData(data) => {
            assert_eq!(data, StickData { lx: 0x7FF, ly: 0x801, rx: 0x123, ry: 0xFFF })
        }
        other => panic!("unexpected outcome {:?}", other),
    }
    assert_eq!(trace.reads, vec![(0x170, 0), (0x170, 20)]);
}

#[test]
fn stick_read_fails_without_data() {
    for last in [None, Some(Vec::new()), Some(vec![0u8; 12])] {
        let controller = Controller::new(ControllerType::ProController);
        let (_, outcome, trace) = drive(controller.read_stick_data(), |n, _| match n {
            0 => None,
            _ => last.clone(),
        });
        assert!(is_failure(&outcome, ControllerError::NoStickData, 0));
        assert_eq!(trace.reads.len(), 2);
    }
}

#[test]
fn stick_read_does_not_touch_the_counter() {
    let controller = Controller::new(ControllerType::ProController);
    let (controller, _, _) = drive(controller.read_stick_data(), |_, _| None);
    let (_, _, trace) = drive(controller.enable_standard_input(), |_, _| None);
    assert_eq!(trace.reports[0][1], 0);
}

#[test]
fn errors_have_messages() {
    assert_eq!(ControllerError::DeviceNotFound.message(), "No supported controller found.");
    assert_eq!(
        ControllerError::DeviceInfoUnavailable.message(),
        "Failed to get valid device info"
    );
    assert_eq!(ControllerError::NoStickData.message(), "No data or invalid packet");
    assert_eq!(ControllerError::SpiWriteFailed.message(), "Failed to write SPI data");
    assert!(!ControllerError::TransportFailed.message().is_empty());
    assert!(!ControllerError::InvalidCalibration.message().is_empty());
}
