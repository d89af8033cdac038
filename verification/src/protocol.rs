//! The exchanges with the device, as a machine without I/O.
//!
//! An exchange is a request of the caller in progress. At every moment it
//! waits for one thing: that an output report was sent, that a timed read
//! came back, or that a pause is over. What came back decides what is done
//! next. This module states these rules over plain values; `controller`
//! holds the executable form.

use vstd::prelude::*;

use crate::codec::{has_sticks, stick_sample};
use crate::flash::Block;
use crate::frame::{
    device_info_frame, input_mode_frame, is_device_info, is_spi_ack, spi_write_frame,
    MAX_SPI_PAYLOAD,
};
use crate::info::{firmware_text, mac_text, FIRMWARE_MAJOR_AT, FIRMWARE_MINOR_AT};
use crate::model::{ControllerType, StickData};

verus! {

/// How often a command is sent before the request is given up.
pub const MAX_ATTEMPTS: u8 = 20;

/// How often a reply is read after one command.
pub const MAX_POLLS: u8 = 8;

/// Time that one read waits for a reply to a command, in milliseconds.
pub const REPLY_TIMEOUT_MS: i32 = 64;

/// Size of the buffer that takes a reply to a command.
pub const REPLY_CAPACITY: usize = 49;

/// Size of the buffer that takes an input report with stick data.
pub const INPUT_CAPACITY: usize = 0x170;

/// Time that the last read for stick data waits, in milliseconds.
pub const STICK_TIMEOUT_MS: i32 = 20;

/// Pause after a command took effect, in milliseconds: the device needs it
/// to store what was written, or to settle in the new input mode.
pub const SETTLE_MS: u64 = 100;

/// Pause before a flash write is tried again, in milliseconds.
pub const BACKOFF_MS: u64 = 10;

/// Why a request failed.
#[derive(Debug, Clone, Copy, PartialEq, Eq, Structural)]
pub enum ControllerError {
    /// No supported controller could be opened.
    DeviceNotFound,
    /// The device never answered the request for its information.
    DeviceInfoUnavailable,
    /// No input report with stick data came in.
    NoStickData,
    /// The device never acknowledged a flash write.
    SpiWriteFailed,
    /// The transport did not take an output report.
    TransportFailed,
    /// The calibration is degenerate and was not written.
    InvalidCalibration,
}

impl ControllerError {
    /// The error in words.
    pub open spec fn text(self) -> Seq<char> {
        match self {
            ControllerError::DeviceNotFound => "No supported controller found."@,
            ControllerError::DeviceInfoUnavailable => "Failed to get valid device info"@,
            ControllerError::NoStickData => "No data or invalid packet"@,
            ControllerError::SpiWriteFailed => "Failed to write SPI data"@,
            ControllerError::TransportFailed => "Failed to send a report to the controller"@,
            ControllerError::InvalidCalibration => "Calibration is degenerate"@,
        }
    }

    /// The error in words.
    pub fn message(&self) -> (text: String)
        ensures
            text@ == self.text(),
    {
        match self {
            ControllerError::DeviceNotFound => String::from_str("No supported controller found."),
            ControllerError::DeviceInfoUnavailable => String::from_str(
                "Failed to get valid device info",
            ),
            ControllerError::NoStickData => String::from_str("No data or invalid packet"),
            ControllerError::SpiWriteFailed => String::from_str("Failed to write SPI data"),
            ControllerError::TransportFailed => String::from_str(
                "Failed to send a report to the controller",
            ),
            ControllerError::InvalidCalibration => String::from_str("Calibration is degenerate"),
        }
    }
}

/// What a request asks of the device.
#[derive(Debug, Clone, Copy, PartialEq, Eq, Structural)]
pub enum Task {
    /// Read firmware version and hardware address.
    DeviceInfo,
    /// Switch to standard input reports.
    InputMode,
    /// Read the latest stick data.
    Sticks,
    /// Write blocks to the flash, one after the other.
    Flash,
}

/// A request in progress.
#[verifier::ext_equal]
pub struct Exchange {
    /// The kind of controller the session talks to.
    pub kind: ControllerType,
    /// The rolling counter of the session: the value that the next command
    /// carries.
    pub timing: u8,
    /// What the request asks for.
    pub task: Task,
    /// The blocks of a flash write.
    pub blocks: Seq<Block>,
    /// How many blocks the device has acknowledged.
    pub written: nat,
    /// How often the current command was sent.
    pub attempts: nat,
    /// How many reads since the last command brought no answer.
    pub polls: nat,
    /// The last stick data seen.
    pub latest: Option<StickData>,
    /// Whether buffered input reports are still being drained.
    pub draining: bool,
    /// Whether the current command took effect.
    pub acked: bool,
}

/// How a request ended.
#[verifier::ext_equal]
pub enum Verdict {
    /// Firmware version and hardware address of the device.
    DeviceInfo { firmware: Seq<char>, mac: Seq<char> },
    /// The device sends standard input reports.
    InputEnabled,
    /// The latest stick data.
    Sticks(StickData),
    /// Every block was written.
    Written,
    /// The request failed after `blocks_written` blocks were written.
    Failed { error: ControllerError, blocks_written: nat },
}

/// What the caller does next for a request.
#[verifier::ext_equal]
pub enum Course {
    /// Send the output report.
    Write { report: Seq<u8>, state: Exchange },
    /// Read an input report of at most `capacity` bytes, waiting at most
    /// `timeout_ms` milliseconds.
    Read { capacity: nat, timeout_ms: int, state: Exchange },
    /// Pause for `millis` milliseconds.
    Sleep { millis: nat, state: Exchange },
    /// Nothing: the request is over, and the session goes on with `timing`.
    Done { kind: ControllerType, timing: u8, verdict: Verdict },
}

/// What came back from the transport.
pub enum Reply {
    /// The output report was sent, or the transport refused it.
    Written(bool),
    /// The read came back with these bytes, none if nothing arrived in
    /// time; or it failed.
    Received(Option<Seq<u8>>),
    /// The pause is over.
    Rested,
}

impl Exchange {
    /// No block is longer than one flash write can take, the counts are
    /// within their limits, a flash write that was sent has its block, and
    /// only a flash write or a new input mode ever takes effect.
    pub open spec fn wf(self) -> bool {
        &&& forall|i: int|
            0 <= i < self.blocks.len() ==> (#[trigger] self.blocks[i]).payload.len()
                <= MAX_SPI_PAYLOAD
        &&& self.blocks.len() <= usize::MAX
        &&& self.written <= self.blocks.len()
        &&& self.attempts <= MAX_ATTEMPTS
        &&& self.polls <= MAX_POLLS
        &&& self.task == Task::Sticks ==> self.polls == 0
        &&& self.task == Task::Flash && self.attempts > 0 ==> self.written < self.blocks.len()
        &&& self.acked ==> self.attempts > 0 && (self.task == Task::Flash || self.task
            == Task::InputMode)
    }
}

impl Course {
    /// The request behind the step is well formed, and a step that belongs
    /// to a command comes after the command was sent.
    pub open spec fn wf(self) -> bool {
        match self {
            Course::Write { report, state } => state.wf() && state.attempts > 0 && state.polls
                == 0,
            Course::Read { capacity, timeout_ms, state } => state.wf() && state.polls < MAX_POLLS
                && (state.task != Task::Sticks ==> state.attempts > 0),
            Course::Sleep { millis, state } => state.wf(),
            Course::Done { kind, timing, verdict } => true,
        }
    }
}

/// A request before anything was done for it.
pub open spec fn fresh(kind: ControllerType, timing: u8, task: Task, blocks: Seq<Block>)
    -> Exchange {
    Exchange {
        kind,
        timing,
        task,
        blocks,
        written: 0,
        attempts: 0,
        polls: 0,
        latest: None,
        draining: true,
        acked: false,
    }
}

/// The rolling counter after one more command.
pub open spec fn advanced(timing: u8) -> u8 {
    if timing == 255 {
        0u8
    } else {
        (timing + 1) as u8
    }
}

/// The error that tells that a request was given up.
pub open spec fn exhausted(task: Task) -> ControllerError {
    match task {
        Task::DeviceInfo => ControllerError::DeviceInfoUnavailable,
        Task::Sticks => ControllerError::NoStickData,
        _ => ControllerError::SpiWriteFailed,
    }
}

/// The request ends with an error.
pub open spec fn failed(x: Exchange, error: ControllerError) -> Course {
    Course::Done {
        kind: x.kind,
        timing: x.timing,
        verdict: Verdict::Failed { error, blocks_written: x.written },
    }
}

/// The output report of the current command.
pub open spec fn command_frame(x: Exchange) -> Seq<u8> {
    match x.task {
        Task::DeviceInfo => device_info_frame(x.timing),
        Task::InputMode => input_mode_frame(x.timing),
        _ => spi_write_frame(
            x.timing,
            x.blocks[x.written as int].address,
            x.blocks[x.written as int].payload,
        ),
    }
}

/// An input report answers the current command.
pub open spec fn answers(task: Task, report: Seq<u8>) -> bool {
    match task {
        Task::DeviceInfo => is_device_info(report),
        Task::Flash => is_spi_ack(report),
        _ => false,
    }
}

/// The step of a request that waits for nothing. Stick data is read without
/// any command. A flash write with no block left is over. Otherwise the
/// current command is sent, with the next value of the rolling counter.
pub open spec fn send(x: Exchange) -> Course {
    if x.task == Task::Sticks {
        Course::Read { capacity: INPUT_CAPACITY as nat, timeout_ms: 0, state: x }
    } else if x.task == Task::Flash && x.written >= x.blocks.len() {
        Course::Done { kind: x.kind, timing: x.timing, verdict: Verdict::Written }
    } else {
        Course::Write {
            report: command_frame(x),
            state: Exchange {
                timing: advanced(x.timing),
                attempts: x.attempts + 1,
                polls: 0,
                acked: false,
                ..x
            },
        }
    }
}

/// The first step of a request.
pub open spec fn start(kind: ControllerType, timing: u8, task: Task, blocks: Seq<Block>) -> Course {
    send(fresh(kind, timing, task, blocks))
}

/// The command is sent once more, unless it was sent `MAX_ATTEMPTS` times.
pub open spec fn retry(x: Exchange) -> Course {
    if x.attempts < MAX_ATTEMPTS {
        send(x)
    } else {
        failed(x, exhausted(x.task))
    }
}

/// An attempt brought no answer. A flash write pauses before the next one.
pub open spec fn attempt_over(x: Exchange) -> Course {
    if x.task == Task::DeviceInfo {
        retry(x)
    } else {
        Course::Sleep { millis: BACKOFF_MS as nat, state: Exchange { acked: false, ..x } }
    }
}

/// The step after an output report was sent (`ok`) or refused. A refusal
/// ends the request. The new input mode needs no answer, only time.
pub open spec fn after_write(x: Exchange, ok: bool) -> Course {
    if !ok {
        failed(x, ControllerError::TransportFailed)
    } else if x.task == Task::InputMode {
        Course::Sleep { millis: SETTLE_MS as nat, state: Exchange { acked: true, ..x } }
    } else {
        Course::Read {
            capacity: REPLY_CAPACITY as nat,
            timeout_ms: REPLY_TIMEOUT_MS as int,
            state: x,
        }
    }
}

/// The step after a read for stick data. While input reports come in, the
/// next one is read at once and the newest one that holds stick data is
/// kept. When none is left, the one kept is the result; if none was kept,
/// one more read waits for a report, and fails the request if that brings
/// no stick data either.
pub open spec fn after_stick_read(x: Exchange, data: Option<Seq<u8>>) -> Course {
    if x.draining {
        if data is Some && data->0.len() > 0 {
            Course::Read {
                capacity: INPUT_CAPACITY as nat,
                timeout_ms: 0,
                state: Exchange {
                    latest: if has_sticks(data->0) {
                        Some(stick_sample(data->0))
                    } else {
                        x.latest
                    },
                    ..x
                },
            }
        } else if x.latest is Some {
            Course::Done { kind: x.kind, timing: x.timing, verdict: Verdict::Sticks(x.latest->0) }
        } else {
            Course::Read {
                capacity: INPUT_CAPACITY as nat,
                timeout_ms: STICK_TIMEOUT_MS as int,
                state: Exchange { draining: false, ..x },
            }
        }
    } else if data is Some && has_sticks(data->0) {
        Course::Done {
            kind: x.kind,
            timing: x.timing,
            verdict: Verdict::Sticks(stick_sample(data->0)),
        }
    } else {
        failed(x, ControllerError::NoStickData)
    }
}

/// The step after a read for the answer to a command. An answer ends a
/// request for device information, and lets a flash write pause for the
/// device to store the block. Any other report, or none, counts as a poll
/// without answer; after `MAX_POLLS` of them the attempt is over. A read
/// that failed ends the attempt at once.
pub open spec fn after_reply_read(x: Exchange, data: Option<Seq<u8>>) -> Course {
    if data is Some && answers(x.task, data->0) {
        if x.task == Task::DeviceInfo {
            Course::Done {
                kind: x.kind,
                timing: x.timing,
                verdict: Verdict::DeviceInfo {
                    firmware: firmware_text(
                        data->0[FIRMWARE_MAJOR_AT as int],
                        data->0[FIRMWARE_MINOR_AT as int],
                    ),
                    mac: mac_text(data->0),
                },
            }
        } else {
            Course::Sleep { millis: SETTLE_MS as nat, state: Exchange { acked: true, ..x } }
        }
    } else if data is Some {
        if x.polls + 1 < MAX_POLLS {
            Course::Read {
                capacity: REPLY_CAPACITY as nat,
                timeout_ms: REPLY_TIMEOUT_MS as int,
                state: Exchange { polls: x.polls + 1, ..x },
            }
        } else {
            attempt_over(Exchange { polls: x.polls + 1, ..x })
        }
    } else {
        attempt_over(x)
    }
}

/// The step after a read came back.
pub open spec fn after_read(x: Exchange, data: Option<Seq<u8>>) -> Course {
    if x.task == Task::Sticks {
        after_stick_read(x, data)
    } else {
        after_reply_read(x, data)
    }
}

/// The step after a pause. After the pause that follows an acknowledged
/// flash write the next block is due; after the pause that follows a new
/// input mode the request is over; after any other pause the command is
/// tried again.
pub open spec fn after_sleep(x: Exchange) -> Course {
    if !x.acked {
        retry(x)
    } else if x.task == Task::InputMode {
        Course::Done { kind: x.kind, timing: x.timing, verdict: Verdict::InputEnabled }
    } else {
        send(Exchange { written: x.written + 1, attempts: 0, polls: 0, acked: false, ..x })
    }
}

} // verus!
