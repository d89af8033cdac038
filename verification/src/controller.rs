//! A session with one controller, and its requests.
//!
//! The session performs no I/O. A request hands the caller the next thing to
//! do on the device: send an output report, read an input report, or pause.
//! The caller does it and hands back what happened, until the request is
//! over. While a request is in progress it owns the session, so that no
//! second request can start before the first one has ended.

use vstd::prelude::*;

use crate::codec::decode_stick_data;
use crate::flash::{blocks_of, calibration_blocks, calibration_plan, plan_valid, Block, SpiBlock};
use crate::frame::{
    acknowledges_spi_write, device_info_report, input_mode_report, spi_write_report,
    MAX_SPI_PAYLOAD,
};
use crate::info::decode_device_info;
use crate::model::{ControllerType, StickCalibration, StickData};
use crate::protocol::{
    after_read, after_reply_read, after_sleep, after_stick_read, after_write, attempt_over,
    failed, fresh, retry, send, start, ControllerError, Course, Exchange, Task, Verdict,
    BACKOFF_MS, INPUT_CAPACITY, MAX_ATTEMPTS, MAX_POLLS, REPLY_CAPACITY, REPLY_TIMEOUT_MS,
    SETTLE_MS, STICK_TIMEOUT_MS,
};

verus! {

/// USB vendor id of every supported controller.
pub const NINTENDO_VID: u16 = 0x057E;

/// USB product id of the left Joy-Con.
pub const JOYCON_L_PID: u16 = 0x2006;

/// USB product id of the right Joy-Con.
pub const JOYCON_R_PID: u16 = 0x2007;

/// USB product id of the Pro Controller.
pub const PRO_CONTROLLER_PID: u16 = 0x2009;

/// A kind of controller that is about to be opened.
pub struct Probe {
    pub candidate: ControllerType,
}

/// Where the search for a controller stands.
pub enum Connect {
    /// Open the device of this probe, then call `opened`.
    Try(Probe),
    /// A controller was opened: the session with it.
    Connected(Controller),
    /// No controller could be opened.
    Failed(ControllerError),
}

/// Where the search for a controller stands, over plain values.
pub enum Opening {
    /// The device of this kind is to be opened next.
    Try(ControllerType),
    /// A controller of this kind was opened.
    Connected(ControllerType),
    /// No controller could be opened.
    NotFound,
}

/// The USB product id of a kind of controller.
pub open spec fn product_id_of(kind: ControllerType) -> u16 {
    match kind {
        ControllerType::JoyConL => JOYCON_L_PID,
        ControllerType::JoyConR => JOYCON_R_PID,
        ControllerType::ProController => PRO_CONTROLLER_PID,
    }
}

/// The search after the device of `candidate` was opened (`ok`) or could
/// not be opened. The first device that opens is taken. The kinds are tried
/// in a fixed order: left Joy-Con, right Joy-Con, Pro Controller.
pub open spec fn after_open(candidate: ControllerType, ok: bool) -> Opening {
    if ok {
        Opening::Connected(candidate)
    } else {
        match candidate {
            ControllerType::JoyConL => Opening::Try(ControllerType::JoyConR),
            ControllerType::JoyConR => Opening::Try(ControllerType::ProController),
            ControllerType::ProController => Opening::NotFound,
        }
    }
}

/// The search from a given point on, where `opens` tells of each kind
/// whether its device can be opened.
pub open spec fn search(from: Opening, opens: spec_fn(ControllerType) -> bool, steps: nat)
    -> Opening
    decreases steps,
{
    match from {
        Opening::Try(candidate) if steps > 0 => search(
            after_open(candidate, opens(candidate)),
            opens,
            (steps - 1) as nat,
        ),
        _ => from,
    }
}

impl View for Connect {
    type V = Opening;

    open spec fn view(&self) -> Opening {
        match *self {
            Connect::Try(probe) => Opening::Try(probe.candidate),
            Connect::Connected(controller) => Opening::Connected(controller.kind()),
            Connect::Failed(_) => Opening::NotFound,
        }
    }
}

impl Probe {
    /// The USB vendor id of the device to open.
    pub fn vendor_id(&self) -> (id: u16)
        ensures
            id == NINTENDO_VID,
    {
        NINTENDO_VID
    }

    /// The USB product id of the device to open.
    pub fn product_id(&self) -> (id: u16)
        ensures
            id == product_id_of(self.candidate),
    {
        match self.candidate {
            ControllerType::JoyConL => JOYCON_L_PID,
            ControllerType::JoyConR => JOYCON_R_PID,
            ControllerType::ProController => PRO_CONTROLLER_PID,
        }
    }

    /// The search after the device was opened (`ok`) or could not be
    /// opened. A new session starts with the rolling counter at 0.
    pub fn opened(self, ok: bool) -> (next: Connect)
        ensures
            next@ == after_open(self.candidate, ok),
            next matches Connect::Connected(controller) ==> controller.timing() == 0,
            next matches Connect::Failed(error) ==> error == ControllerError::DeviceNotFound,
    {
        if ok {
            Connect::Connected(Controller::new(self.candidate))
        } else {
            match self.candidate {
                ControllerType::JoyConL => Connect::Try(Probe { candidate: ControllerType::JoyConR }),
                ControllerType::JoyConR => Connect::Try(
                    Probe { candidate: ControllerType::ProController },
                ),
                ControllerType::ProController => Connect::Failed(ControllerError::DeviceNotFound),
            }
        }
    }
}

/// The search for a controller ends after at most three devices, with the
/// first kind in the order of the search whose device opens, or without a
/// controller if none opens.
pub proof fn lemma_first_that_opens(opens: spec_fn(ControllerType) -> bool)
    ensures
        search(Opening::Try(ControllerType::JoyConL), opens, 3) == if opens(
            ControllerType::JoyConL,
        ) {
            Opening::Connected(ControllerType::JoyConL)
        } else if opens(ControllerType::JoyConR) {
            Opening::Connected(ControllerType::JoyConR)
        } else if opens(ControllerType::ProController) {
            Opening::Connected(ControllerType::ProController)
        } else {
            Opening::NotFound
        },
{
    reveal_with_fuel(search, 4);
}

/// A session with one controller.
pub struct Controller {
    controller_type: ControllerType,
    timing_byte: u8,
}

/// The state of a request in progress.
struct Progress {
    controller: Controller,
    task: Task,
    blocks: Vec<SpiBlock>,
    written: usize,
    attempts: u8,
    polls: u8,
    latest: Option<StickData>,
    draining: bool,
    acked: bool,
}

/// A request that waits for its output report to be sent.
pub struct PendingWrite {
    report: [u8; 49],
    progress: Progress,
}

/// A request that waits for a timed read to come back.
pub struct PendingRead {
    capacity: usize,
    timeout_ms: i32,
    progress: Progress,
}

/// A request that waits for a pause to be over.
pub struct PendingSleep {
    millis: u64,
    progress: Progress,
}

/// How a request ended.
#[derive(Debug)]
pub enum Outcome {
    /// Firmware version and hardware address of the device.
    DeviceInfo(String, String),
    /// The device sends standard input reports.
    InputEnabled,
    /// The latest stick data.
    StickData(StickData),
    /// Every block was written.
    Written,
    /// The request failed after `blocks_written` blocks were written.
    Failed { error: ControllerError, blocks_written: usize },
}

/// What the caller does next for a request.
pub enum Next {
    /// Send the report, then call `written`.
    Write(PendingWrite),
    /// Read an input report, then call `received`.
    Read(PendingRead),
    /// Pause, then call `rested`.
    Sleep(PendingSleep),
    /// Nothing: the request is over and the session is free again.
    Done(Controller, Outcome),
}

impl Controller {
    /// The kind of controller the session talks to.
    pub closed spec fn kind(&self) -> ControllerType {
        self.controller_type
    }

    /// The rolling counter: the value that the next command carries.
    pub closed spec fn timing(&self) -> u8 {
        self.timing_byte
    }
}

impl Progress {
    /// The request over plain values.
    closed spec fn model(self) -> Exchange {
        Exchange {
            kind: self.controller.controller_type,
            timing: self.controller.timing_byte,
            task: self.task,
            blocks: blocks_of(self.blocks@),
            written: self.written as nat,
            attempts: self.attempts as nat,
            polls: self.polls as nat,
            latest: self.latest,
            draining: self.draining,
            acked: self.acked,
        }
    }
}

impl View for Outcome {
    type V = Verdict;

    open spec fn view(&self) -> Verdict {
        match *self {
            Outcome::DeviceInfo(firmware, mac) => Verdict::DeviceInfo {
                firmware: firmware@,
                mac: mac@,
            },
            Outcome::InputEnabled => Verdict::InputEnabled,
            Outcome::StickData(data) => Verdict::Sticks(data),
            Outcome::Written => Verdict::Written,
            Outcome::Failed { error, blocks_written } => Verdict::Failed {
                error,
                blocks_written: blocks_written as nat,
            },
        }
    }
}

impl PendingWrite {
    /// The output report to send.
    pub closed spec fn frame(&self) -> Seq<u8> {
        self.report@
    }

    /// The request.
    pub closed spec fn state(&self) -> Exchange {
        self.progress.model()
    }

    /// Every request that waits is well formed.
    #[verifier::type_invariant]
    closed spec fn inv(self) -> bool {
        self@.wf()
    }
}

impl PendingRead {
    /// The most bytes that the read may bring.
    pub closed spec fn room(&self) -> nat {
        self.capacity as nat
    }

    /// The longest time that the read may wait, in milliseconds.
    pub closed spec fn patience(&self) -> int {
        self.timeout_ms as int
    }

    /// The request.
    pub closed spec fn state(&self) -> Exchange {
        self.progress.model()
    }

    /// Every request that waits is well formed.
    #[verifier::type_invariant]
    closed spec fn inv(self) -> bool {
        self@.wf()
    }
}

impl PendingSleep {
    /// The length of the pause in milliseconds.
    pub closed spec fn length(&self) -> nat {
        self.millis as nat
    }

    /// The request.
    pub closed spec fn state(&self) -> Exchange {
        self.progress.model()
    }

    /// Every request that waits is well formed.
    #[verifier::type_invariant]
    closed spec fn inv(self) -> bool {
        self@.wf()
    }
}

impl View for PendingWrite {
    type V = Course;

    open spec fn view(&self) -> Course {
        Course::Write { report: self.frame(), state: self.state() }
    }
}

impl View for PendingRead {
    type V = Course;

    open spec fn view(&self) -> Course {
        Course::Read { capacity: self.room(), timeout_ms: self.patience(), state: self.state() }
    }
}

impl View for PendingSleep {
    type V = Course;

    open spec fn view(&self) -> Course {
        Course::Sleep { millis: self.length(), state: self.state() }
    }
}

impl View for Next {
    type V = Course;

    open spec fn view(&self) -> Course {
        match *self {
            Next::Write(pending) => pending@,
            Next::Read(pending) => pending@,
            Next::Sleep(pending) => pending@,
            Next::Done(controller, outcome) => Course::Done {
                kind: controller.kind(),
                timing: controller.timing(),
                verdict: outcome@,
            },
        }
    }
}

/// The bytes that a read brought, if it did not fail.
pub open spec fn bytes_of(data: Option<&[u8]>) -> Option<Seq<u8>> {
    match data {
        Some(bytes) => Some(bytes@),
        None => None,
    }
}

/// The request ends with an error.
fn fail(progress: Progress, error: ControllerError) -> (next: Next)
    ensures
        next@ == failed(progress.model(), error),
        next@.wf(),
{
    let written = progress.written;
    Next::Done(progress.controller, Outcome::Failed { error, blocks_written: written })
}

/// The step of a request that waits for nothing.
fn proceed(progress: Progress) -> (next: Next)
    requires
        progress.model().wf(),
        progress.attempts < MAX_ATTEMPTS,
        !progress.acked,
    ensures
        next@ == send(progress.model()),
        next@.wf(),
{
    let mut progress = progress;
    let timing = progress.controller.timing_byte;
    let report = match progress.task {
        Task::Sticks => {
            return Next::Read(PendingRead { capacity: INPUT_CAPACITY, timeout_ms: 0, progress });
        },
        Task::DeviceInfo => device_info_report(timing),
        Task::InputMode => input_mode_report(timing),
        Task::Flash => {
            if progress.written >= progress.blocks.len() {
                return Next::Done(progress.controller, Outcome::Written);
            }
            let block = &progress.blocks[progress.written];
            assert(blocks_of(progress.blocks@)[progress.written as int] == block@);
            spi_write_report(timing, block.address, block.payload.as_slice())
        },
    };
    let ghost before = progress.model();
    progress.controller.timing_byte = if timing == 255 {
        0
    } else {
        timing + 1
    };
    progress.attempts = progress.attempts + 1;
    progress.polls = 0;
    assert(Course::Write { report: report@, state: progress.model() } =~= send(before));
    Next::Write(PendingWrite { report, progress })
}

/// An attempt brought no answer.
fn end_attempt(progress: Progress) -> (next: Next)
    requires
        progress.model().wf(),
    ensures
        next@ == attempt_over(progress.model()),
        next@.wf(),
{
    match progress.task {
        Task::DeviceInfo => try_again(progress),
        _ => {
            let mut progress = progress;
            let ghost before = progress.model();
            progress.acked = false;
            assert(Course::Sleep { millis: BACKOFF_MS as nat, state: progress.model() }
                =~= attempt_over(before));
            Next::Sleep(PendingSleep { millis: BACKOFF_MS, progress })
        },
    }
}

/// The command is sent once more, unless it was sent often enough.
fn try_again(progress: Progress) -> (next: Next)
    requires
        progress.model().wf(),
        !progress.acked,
    ensures
        next@ == retry(progress.model()),
        next@.wf(),
{
    if progress.attempts < MAX_ATTEMPTS {
        proceed(progress)
    } else {
        let error = match progress.task {
            Task::DeviceInfo => ControllerError::DeviceInfoUnavailable,
            Task::Sticks => ControllerError::NoStickData,
            _ => ControllerError::SpiWriteFailed,
        };
        fail(progress, error)
    }
}

impl Controller {
    /// A session with a controller of the given kind, with the rolling
    /// counter at 0.
    pub fn new(controller_type: ControllerType) -> (controller: Controller)
        ensures
            controller.kind() == controller_type,
            controller.timing() == 0,
    {
        Controller { controller_type, timing_byte: 0 }
    }

    /// Starts the search for a controller, with the left Joy-Con.
    pub fn connect() -> (probe: Probe)
        ensures
            probe.candidate == ControllerType::JoyConL,
    {
        Probe { candidate: ControllerType::JoyConL }
    }

    /// The kind of controller the session talks to.
    pub fn get_controller_type(&self) -> (kind: ControllerType)
        ensures
            kind == self.kind(),
    {
        self.controller_type
    }

    /// Starts a request.
    fn begin(self, task: Task, blocks: Vec<SpiBlock>) -> (next: Next)
        requires
            fresh(self.kind(), self.timing(), task, blocks_of(blocks@)).wf(),
        ensures
            next@ == start(self.kind(), self.timing(), task, blocks_of(blocks@)),
            next@.wf(),
    {
        let progress = Progress {
            controller: self,
            task,
            blocks,
            written: 0,
            attempts: 0,
            polls: 0,
            latest: None,
            draining: true,
            acked: false,
        };
        assert(progress.model() =~= fresh(self.kind(), self.timing(), task, blocks_of(blocks@)));
        proceed(progress)
    }

    /// Asks the device for its firmware version and hardware address. The
    /// request is sent up to `MAX_ATTEMPTS` times, and each time up to
    /// `MAX_POLLS` input reports are read for the answer.
    pub fn get_device_info(self) -> (next: Next)
        ensures
            next@ == start(self.kind(), self.timing(), Task::DeviceInfo, Seq::empty()),
            next@.wf(),
    {
        let blocks: Vec<SpiBlock> = Vec::new();
        assert(blocks_of(blocks@) =~= Seq::empty());
        self.begin(Task::DeviceInfo, blocks)
    }

    /// Switches the device to standard input reports. No answer is waited
    /// for; the request ends after the device had time to settle.
    pub fn enable_standard_input(self) -> (next: Next)
        ensures
            next@ == start(self.kind(), self.timing(), Task::InputMode, Seq::empty()),
            next@.wf(),
    {
        let blocks: Vec<SpiBlock> = Vec::new();
        assert(blocks_of(blocks@) =~= Seq::empty());
        self.begin(Task::InputMode, blocks)
    }

    /// Reads the latest stick data: the newest of the input reports that
    /// are already waiting, or the next one to arrive.
    pub fn read_stick_data(self) -> (next: Next)
        ensures
            next@ == start(self.kind(), self.timing(), Task::Sticks, Seq::empty()),
            next@.wf(),
    {
        let blocks: Vec<SpiBlock> = Vec::new();
        assert(blocks_of(blocks@) =~= Seq::empty());
        self.begin(Task::Sticks, blocks)
    }

    /// Writes `data` to the flash at `offset`. The write is sent up to
    /// `MAX_ATTEMPTS` times, and each time up to `MAX_POLLS` input reports
    /// are read for the acknowledgement.
    pub fn write_spi_data(self, offset: u32, data: &[u8]) -> (next: Next)
        requires
            data@.len() <= MAX_SPI_PAYLOAD,
        ensures
            next@ == start(
                self.kind(),
                self.timing(),
                Task::Flash,
                seq![Block { address: offset, payload: data@ }],
            ),
            next@.wf(),
    {
        let mut blocks: Vec<SpiBlock> = Vec::new();
        blocks.push(SpiBlock { address: offset, payload: vstd::slice::slice_to_vec(data) });
        assert(blocks_of(blocks@) =~~= seq![Block { address: offset, payload: data@ }]);
        self.begin(Task::Flash, blocks)
    }

    /// Writes a calibration to the flash: the record and the parameter
    /// block of the right stick, then those of the left stick. A degenerate
    /// calibration is refused before anything is written. The first write
    /// that fails ends the request; what was written before it stays
    /// written.
    pub fn write_calibration_to_device(
        self,
        left_cal: StickCalibration,
        right_cal: StickCalibration,
        left_deadzone: u16,
        right_deadzone: u16,
        _raw_calibration: bool,
    ) -> (next: Next)
        ensures
            next@ == if plan_valid(self.kind(), left_cal, right_cal, left_deadzone, right_deadzone) {
                start(
                    self.kind(),
                    self.timing(),
                    Task::Flash,
                    calibration_plan(
                        self.kind(),
                        left_cal,
                        right_cal,
                        left_deadzone,
                        right_deadzone,
                    ),
                )
            } else {
                Course::Done {
                    kind: self.kind(),
                    timing: self.timing(),
                    verdict: Verdict::Failed {
                        error: ControllerError::InvalidCalibration,
                        blocks_written: 0,
                    },
                }
            },
            next@.wf(),
    {
        match calibration_blocks(
            self.controller_type,
            &left_cal,
            &right_cal,
            left_deadzone,
            right_deadzone,
        ) {
            Some(blocks) => self.begin(Task::Flash, blocks),
            None => Next::Done(
                self,
                Outcome::Failed { error: ControllerError::InvalidCalibration, blocks_written: 0 },
            ),
        }
    }
}

impl PendingWrite {
    /// The output report to send.
    pub fn report(&self) -> (report: &[u8; 49])
        ensures
            report@ == self.frame(),
    {
        &self.report
    }

    /// The step after the report was sent (`ok`) or refused.
    pub fn written(self, ok: bool) -> (next: Next)
        ensures
            next@ == after_write(self.state(), ok),
            next@.wf(),
    {
        proof {
            use_type_invariant(&self);
        }
        let mut progress = self.progress;
        let ghost before = progress.model();
        if !ok {
            fail(progress, ControllerError::TransportFailed)
        } else {
            match progress.task {
                Task::InputMode => {
                    progress.acked = true;
                    assert(Course::Sleep { millis: SETTLE_MS as nat, state: progress.model() }
                        =~= after_write(before, ok));
                    Next::Sleep(PendingSleep { millis: SETTLE_MS, progress })
                },
                _ => Next::Read(
                    PendingRead {
                        capacity: REPLY_CAPACITY,
                        timeout_ms: REPLY_TIMEOUT_MS,
                        progress,
                    },
                ),
            }
        }
    }
}

impl PendingRead {
    /// The most bytes that the read may bring.
    pub fn capacity(&self) -> (capacity: usize)
        ensures
            capacity == self.room(),
    {
        self.capacity
    }

    /// The longest time that the read may wait, in milliseconds; 0 for a
    /// read that takes what is there and does not wait.
    pub fn timeout_ms(&self) -> (timeout_ms: i32)
        ensures
            timeout_ms == self.patience(),
    {
        self.timeout_ms
    }

    /// The step after the read came back: with the bytes it brought, none
    /// if nothing arrived in time, or with nothing if it failed.
    pub fn received(self, data: Option<&[u8]>) -> (next: Next)
        ensures
            next@ == after_read(self.state(), bytes_of(data)),
            next@.wf(),
    {
        proof {
            use_type_invariant(&self);
        }
        match self.progress.task {
            Task::Sticks => sticks_received(self.progress, data),
            _ => reply_received(self.progress, data),
        }
    }
}

/// The step after a read for stick data.
fn sticks_received(progress: Progress, data: Option<&[u8]>) -> (next: Next)
    requires
        progress.model().wf(),
        progress.task == Task::Sticks,
    ensures
        next@ == after_stick_read(progress.model(), bytes_of(data)),
        next@.wf(),
{
    let mut progress = progress;
    let ghost before = progress.model();
    let sample = match data {
        Some(bytes) => decode_stick_data(bytes),
        None => None,
    };
    if progress.draining {
        let more = match data {
            Some(bytes) => bytes.len() > 0,
            None => false,
        };
        if more {
            if sample.is_some() {
                progress.latest = sample;
            }
            assert(Course::Read {
                capacity: INPUT_CAPACITY as nat,
                timeout_ms: 0,
                state: progress.model(),
            } =~= after_stick_read(before, bytes_of(data)));
            Next::Read(PendingRead { capacity: INPUT_CAPACITY, timeout_ms: 0, progress })
        } else {
            match progress.latest {
                Some(latest) => Next::Done(progress.controller, Outcome::StickData(latest)),
                None => {
                    progress.draining = false;
                    assert(Course::Read {
                        capacity: INPUT_CAPACITY as nat,
                        timeout_ms: STICK_TIMEOUT_MS as int,
                        state: progress.model(),
                    } =~= after_stick_read(before, bytes_of(data)));
                    Next::Read(
                        PendingRead {
                            capacity: INPUT_CAPACITY,
                            timeout_ms: STICK_TIMEOUT_MS,
                            progress,
                        },
                    )
                },
            }
        }
    } else {
        match sample {
            Some(latest) => Next::Done(progress.controller, Outcome::StickData(latest)),
            None => fail(progress, ControllerError::NoStickData),
        }
    }
}

/// The step after a read for the answer to a command.
fn reply_received(progress: Progress, data: Option<&[u8]>) -> (next: Next)
    requires
        progress.model().wf(),
        progress.task != Task::Sticks,
        progress.attempts > 0,
        progress.polls < MAX_POLLS,
    ensures
        next@ == after_reply_read(progress.model(), bytes_of(data)),
        next@.wf(),
{
    let mut progress = progress;
    let ghost before = progress.model();
    match data {
        Some(bytes) => {
            match progress.task {
                Task::DeviceInfo => {
                    if let Some((firmware, mac)) = decode_device_info(bytes) {
                        return Next::Done(progress.controller, Outcome::DeviceInfo(firmware, mac));
                    }
                },
                Task::Flash => {
                    if acknowledges_spi_write(bytes) {
                        progress.acked = true;
                        assert(Course::Sleep { millis: SETTLE_MS as nat, state: progress.model() }
                            =~= after_reply_read(before, bytes_of(data)));
                        return Next::Sleep(PendingSleep { millis: SETTLE_MS, progress });
                    }
                },
                _ => {},
            }
            if progress.polls + 1 < MAX_POLLS {
                progress.polls = progress.polls + 1;
                assert(Course::Read {
                    capacity: REPLY_CAPACITY as nat,
                    timeout_ms: REPLY_TIMEOUT_MS as int,
                    state: progress.model(),
                } =~= after_reply_read(before, bytes_of(data)));
                Next::Read(
                    PendingRead {
                        capacity: REPLY_CAPACITY,
                        timeout_ms: REPLY_TIMEOUT_MS,
                        progress,
                    },
                )
            } else {
                progress.polls = progress.polls + 1;
                assert(progress.model() =~= Exchange { polls: before.polls + 1, ..before });
                end_attempt(progress)
            }
        },
        None => end_attempt(progress),
    }
}

impl PendingSleep {
    /// The length of the pause in milliseconds.
    pub fn millis(&self) -> (millis: u64)
        ensures
            millis == self.length(),
    {
        self.millis
    }

    /// The step after the pause.
    pub fn rested(self) -> (next: Next)
        ensures
            next@ == after_sleep(self.state()),
            next@.wf(),
    {
        proof {
            use_type_invariant(&self);
        }
        let mut progress = self.progress;
        let ghost before = progress.model();
        if !progress.acked {
            try_again(progress)
        } else {
            match progress.task {
                Task::InputMode => Next::Done(progress.controller, Outcome::InputEnabled),
                _ => {
                    progress.written = progress.written + 1;
                    progress.attempts = 0;
                    progress.polls = 0;
                    progress.acked = false;
                    assert(progress.model() =~= Exchange {
                        written: before.written + 1,
                        attempts: 0,
                        polls: 0,
                        acked: false,
                        ..before
                    });
                    proceed(progress)
                },
            }
        }
    }
}

} // verus!
