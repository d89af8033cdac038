//! What holds of a request over all the replies it can meet.
//!
//! A run is a request together with a sequence of replies. The laws of this
//! module say how runs end: how often a command is sent before a request is
//! given up, that no request but one for stick data goes on for ever, that
//! blocks reach the flash in their order, and which stick data a read ends
//! with.

use vstd::prelude::*;

use crate::codec::{has_sticks, stick_sample};
use crate::flash::Block;
use crate::frame::{is_spi_ack, spi_write_frame, MAX_SPI_PAYLOAD};
use crate::model::{ControllerType, StickData};
use crate::protocol::{
    advanced, after_read, after_sleep, after_write, answers, command_frame, exhausted, fresh,
    retry, send, start, ControllerError, Course, Exchange, Reply, Task, Verdict, BACKOFF_MS,
    INPUT_CAPACITY, MAX_ATTEMPTS, SETTLE_MS, STICK_TIMEOUT_MS,
};

verus! {

impl Course {
    /// The reply is of the kind that the step waits for.
    pub open spec fn awaits(self, reply: Reply) -> bool {
        match self {
            Course::Write { report, state } => reply is Written,
            Course::Read { capacity, timeout_ms, state } => reply is Received,
            Course::Sleep { millis, state } => reply is Rested,
            Course::Done { kind, timing, verdict } => false,
        }
    }

    /// What the request is for, if it is not over.
    pub open spec fn task(self) -> Option<Task> {
        match self {
            Course::Write { report, state } => Some(state.task),
            Course::Read { capacity, timeout_ms, state } => Some(state.task),
            Course::Sleep { millis, state } => Some(state.task),
            Course::Done { kind, timing, verdict } => None,
        }
    }

    /// An upper bound of the number of steps that are left, for every
    /// request but one for stick data. An attempt has at most ten steps:
    /// the command, `MAX_POLLS` reads and a pause. A block or command has at
    /// most `MAX_ATTEMPTS` attempts, so at most 200 steps.
    pub open spec fn budget(self) -> int {
        match self {
            Course::Write { report, state } => reserve(state) + 10,
            Course::Read { capacity, timeout_ms, state } => reserve(state) + 9 - state.polls,
            Course::Sleep { millis, state } => if state.acked {
                later_blocks(state) + 1
            } else {
                reserve(state) + 1
            },
            Course::Done { kind, timing, verdict } => 0,
        }
    }
}

/// The steps that the blocks after the current one can take.
pub open spec fn later_blocks(x: Exchange) -> int {
    if x.written + 1 < x.blocks.len() {
        (x.blocks.len() - x.written - 1) * 200
    } else {
        0
    }
}

/// The steps that the attempts after the current one can take, for this
/// block and the later ones.
pub open spec fn reserve(x: Exchange) -> int {
    later_blocks(x) + (MAX_ATTEMPTS - x.attempts) * 10
}

/// The step after a reply. A reply of another kind than the step waits for
/// changes nothing, and neither does any reply once the request is over.
pub open spec fn feed(course: Course, reply: Reply) -> Course {
    match course {
        Course::Write { report, state } => match reply {
            Reply::Written(ok) => after_write(state, ok),
            _ => course,
        },
        Course::Read { capacity, timeout_ms, state } => match reply {
            Reply::Received(data) => after_read(state, data),
            _ => course,
        },
        Course::Sleep { millis, state } => match reply {
            Reply::Rested => after_sleep(state),
            _ => course,
        },
        Course::Done { kind, timing, verdict } => course,
    }
}

/// The step after a sequence of replies, the first one first.
pub open spec fn run(course: Course, replies: Seq<Reply>) -> Course
    decreases replies.len(),
{
    if replies.len() == 0 {
        course
    } else {
        feed(run(course, replies.drop_last()), replies.last())
    }
}

/// How many output reports the caller was handed from `course` on, while
/// the replies came in.
pub open spec fn commands_sent(course: Course, replies: Seq<Reply>) -> nat
    decreases replies.len(),
{
    if replies.len() == 0 {
        if course is Write {
            1
        } else {
            0
        }
    } else {
        let before = run(course, replies.drop_last());
        let after = feed(before, replies.last());
        let earlier = commands_sent(course, replies.drop_last());
        if after is Write && !(before is Write) {
            earlier + 1
        } else {
            earlier
        }
    }
}

/// The rolling counter after `count` more commands.
pub open spec fn advanced_by(timing: u8, count: nat) -> u8 {
    ((timing + count) % 256) as u8
}

/// A request that is well formed stays so, whatever comes back.
pub proof fn lemma_feed_wf(course: Course, reply: Reply)
    requires
        course.wf(),
    ensures
        feed(course, reply).wf(),
{
}

/// The first step of a request is well formed if no block is longer than a
/// flash write can take.
pub proof fn lemma_start_wf(kind: ControllerType, timing: u8, task: Task, blocks: Seq<Block>)
    requires
        fresh(kind, timing, task, blocks).wf(),
    ensures
        start(kind, timing, task, blocks).wf(),
{
}

/// Every reply that a step waits for brings a request nearer to its end,
/// unless the request is one for stick data: no request but that one can go
/// on for ever.
pub proof fn lemma_feed_decreases_budget(course: Course, reply: Reply)
    requires
        course.wf(),
        course.awaits(reply),
        course.task() != Some(Task::Sticks),
    ensures
        0 <= feed(course, reply).budget() < course.budget(),
{
}

/// A request starts with a budget of 200 steps for each block, or for its
/// one command.
pub proof fn lemma_start_budget(kind: ControllerType, timing: u8, task: Task, blocks: Seq<Block>)
    requires
        task != Task::Sticks,
        task != Task::Flash ==> blocks.len() == 0,
    ensures
        start(kind, timing, task, blocks).budget() == if task == Task::Flash {
            blocks.len() * 200
        } else {
            200
        },
{
}

/// The rolling counter of the session at a step: the value that the next
/// command will carry.
pub open spec fn timing_of(course: Course) -> u8 {
    match course {
        Course::Write { report, state } => state.timing,
        Course::Read { capacity, timeout_ms, state } => state.timing,
        Course::Sleep { millis, state } => state.timing,
        Course::Done { kind, timing, verdict } => timing,
    }
}

/// Where the rolling counter stands after `sent` output reports of a
/// request that began with the counter at `timing`: it moved on by one with
/// each of them, and the last one carries the low four bits of the counter
/// as it stood before it.
pub open spec fn counter_course(course: Course, timing: u8, sent: nat) -> bool {
    &&& course.wf()
    &&& timing_of(course) == advanced_by(timing, sent)
    &&& course matches Course::Write { report, state } ==> {
        &&& sent > 0
        &&& report.len() > 1
        &&& report[1] == advanced_by(timing, (sent - 1) as nat) % 16
    }
}

/// A reply moves the rolling counter on by one if it leads to the next
/// output report, and leaves it alone otherwise.
proof fn lemma_counter_step(course: Course, reply: Reply, timing: u8, sent: nat)
    requires
        counter_course(course, timing, sent),
    ensures
        counter_course(
            feed(course, reply),
            timing,
            if feed(course, reply) is Write && !(course is Write) {
                sent + 1
            } else {
                sent
            },
        ),
{
    lemma_feed_wf(course, reply);
    assert(advanced(advanced_by(timing, sent)) == advanced_by(timing, sent + 1));
}

/// The first step of a request has the rolling counter where the session
/// left it, moved on by one if the step is an output report.
proof fn lemma_counter_start(kind: ControllerType, timing: u8, task: Task, blocks: Seq<Block>)
    requires
        fresh(kind, timing, task, blocks).wf(),
    ensures
        counter_course(
            start(kind, timing, task, blocks),
            timing,
            if start(kind, timing, task, blocks) is Write {
                1
            } else {
                0
            },
        ),
{
    assert(advanced(advanced_by(timing, 0)) == advanced_by(timing, 1));
}

/// The rolling counter moves on by one with every output report of a
/// request, and with nothing else; every output report carries the low four
/// bits of the counter as it stood before.
pub proof fn lemma_counter_follows_commands(
    kind: ControllerType,
    timing: u8,
    task: Task,
    blocks: Seq<Block>,
    replies: Seq<Reply>,
)
    requires
        fresh(kind, timing, task, blocks).wf(),
    ensures
        counter_course(
            run(start(kind, timing, task, blocks), replies),
            timing,
            commands_sent(start(kind, timing, task, blocks), replies),
        ),
    decreases replies.len(),
{
    let first = start(kind, timing, task, blocks);
    if replies.len() > 0 {
        let earlier = replies.drop_last();
        lemma_counter_follows_commands(kind, timing, task, blocks, earlier);
        lemma_counter_step(
            run(first, earlier),
            replies.last(),
            timing,
            commands_sent(first, earlier),
        );
    } else {
        lemma_counter_start(kind, timing, task, blocks);
    }
}

/// Every reply of the sequence is of the kind that the step it meets waits
/// for.
pub open spec fn answered(course: Course, replies: Seq<Reply>) -> bool {
    forall|i: int|
        0 <= i < replies.len() ==> (#[trigger] run(course, replies.take(i))).awaits(replies[i])
}

/// A request that is not for stick data takes no more replies than its
/// budget: it ends after at most 200 steps for each block or command.
pub proof fn lemma_run_bounded(course: Course, replies: Seq<Reply>)
    requires
        course.wf(),
        course.task() != Some(Task::Sticks),
        answered(course, replies),
    ensures
        run(course, replies).wf(),
        run(course, replies).task() != Some(Task::Sticks),
        0 <= run(course, replies).budget() <= course.budget() - replies.len(),
    decreases replies.len(),
{
    if replies.len() > 0 {
        let earlier = replies.drop_last();
        assert forall|i: int| 0 <= i < earlier.len() implies (#[trigger] run(
            course,
            earlier.take(i),
        )).awaits(earlier[i]) by {
            assert(earlier.take(i) =~= replies.take(i));
        }
        lemma_run_bounded(course, earlier);
        assert(replies.take(replies.len() - 1) =~= earlier);
        lemma_feed_decreases_budget(run(course, earlier), replies.last());
    }
}

/// The stick data of the newest of the input reports that hold any.
pub open spec fn newest_sample(reports: Seq<Seq<u8>>) -> Option<StickData>
    decreases reports.len(),
{
    if reports.len() == 0 {
        None
    } else if has_sticks(reports.last()) {
        Some(stick_sample(reports.last()))
    } else {
        newest_sample(reports.drop_last())
    }
}

/// The replies of reads that brought the input reports, one each.
pub open spec fn received_all(reports: Seq<Seq<u8>>) -> Seq<Reply> {
    Seq::new(reports.len(), |i: int| Reply::Received(Some(reports[i])))
}

/// While input reports are waiting, a request for stick data reads on at
/// once and keeps the stick data of the newest one that holds any.
pub proof fn lemma_drain_keeps_newest(kind: ControllerType, timing: u8, reports: Seq<Seq<u8>>)
    requires
        forall|i: int| 0 <= i < reports.len() ==> (#[trigger] reports[i]).len() > 0,
    ensures
        run(start(kind, timing, Task::Sticks, Seq::empty()), received_all(reports))
            == (Course::Read {
            capacity: INPUT_CAPACITY as nat,
            timeout_ms: 0,
            state: Exchange {
                latest: newest_sample(reports),
                ..fresh(kind, timing, Task::Sticks, Seq::empty())
            },
        }),
    decreases reports.len(),
{
    let first = start(kind, timing, Task::Sticks, Seq::empty());
    if reports.len() > 0 {
        let earlier = reports.drop_last();
        lemma_drain_keeps_newest(kind, timing, earlier);
        assert(received_all(reports).drop_last() =~= received_all(earlier));
        assert(received_all(reports).last() == Reply::Received(Some(reports.last())));
    }
}

/// A request for stick data ends with the stick data of the newest input
/// report that was waiting. If none was waiting that holds stick data, it
/// waits for one more report, and ends with the stick data of that report,
/// or fails if that report holds none or does not come.
pub proof fn lemma_stick_read_result(
    kind: ControllerType,
    timing: u8,
    reports: Seq<Seq<u8>>,
    stop: Option<Seq<u8>>,
    late: Option<Seq<u8>>,
)
    requires
        forall|i: int| 0 <= i < reports.len() ==> (#[trigger] reports[i]).len() > 0,
        stop matches Some(report) ==> report.len() == 0,
    ensures
        ({
            let first = start(kind, timing, Task::Sticks, Seq::empty());
            let drained = run(first, received_all(reports).push(Reply::Received(stop)));
            let last = feed(drained, Reply::Received(late));
            match newest_sample(reports) {
                Some(data) => drained == (Course::Done {
                    kind,
                    timing,
                    verdict: Verdict::Sticks(data),
                }),
                None => {
                    &&& drained matches Course::Read { capacity, timeout_ms, state }
                    &&& capacity == INPUT_CAPACITY
                    &&& timeout_ms == STICK_TIMEOUT_MS
                    &&& last == if late is Some && has_sticks(late->0) {
                        Course::Done {
                            kind,
                            timing,
                            verdict: Verdict::Sticks(stick_sample(late->0)),
                        }
                    } else {
                        Course::Done {
                            kind,
                            timing,
                            verdict: Verdict::Failed {
                                error: ControllerError::NoStickData,
                                blocks_written: 0,
                            },
                        }
                    }
                },
            }
        }),
{
    let first = start(kind, timing, Task::Sticks, Seq::empty());
    let replies = received_all(reports).push(Reply::Received(stop));
    lemma_drain_keeps_newest(kind, timing, reports);
    assert(replies.drop_last() =~= received_all(reports));
    assert(replies.last() == Reply::Received(stop));
}

/// A reply that brings the acknowledgement of a flash write.
pub open spec fn acknowledges(reply: Reply) -> bool {
    match reply {
        Reply::Received(Some(report)) => is_spi_ack(report),
        _ => false,
    }
}

/// How many blocks the device acknowledged from `course` on, while the
/// replies came in.
pub open spec fn blocks_acknowledged(course: Course, replies: Seq<Reply>) -> nat
    decreases replies.len(),
{
    if replies.len() == 0 {
        0
    } else {
        let before = run(course, replies.drop_last());
        let earlier = blocks_acknowledged(course, replies.drop_last());
        if before is Read && acknowledges(replies.last()) {
            earlier + 1
        } else {
            earlier
        }
    }
}

/// Where a flash write stands after the device acknowledged `acknowledged`
/// blocks: the blocks go out in their order, one at a time, and the next
/// one only after the one before it was acknowledged.
pub open spec fn flash_course(course: Course, first: Exchange, acknowledged: nat) -> bool {
    &&& course.wf()
    &&& acknowledged <= first.blocks.len()
    &&& match course {
        Course::Write { report, state } => {
            &&& flash_state(state, first)
            &&& state.written == acknowledged
            &&& !state.acked
            &&& exists|timing: u8|
                report == spi_write_frame(
                    timing,
                    first.blocks[acknowledged as int].address,
                    first.blocks[acknowledged as int].payload,
                )
        },
        Course::Read { capacity, timeout_ms, state } => {
            &&& flash_state(state, first)
            &&& state.written == acknowledged
            &&& !state.acked
        },
        Course::Sleep { millis, state } => {
            &&& flash_state(state, first)
            &&& state.attempts > 0
            &&& if state.acked {
                state.written + 1 == acknowledged && millis == SETTLE_MS
            } else {
                state.written == acknowledged && millis == BACKOFF_MS
            }
        },
        Course::Done { kind, timing, verdict } => {
            &&& kind == first.kind
            &&& match verdict {
                Verdict::Written => acknowledged == first.blocks.len(),
                Verdict::Failed { error, blocks_written } => {
                    &&& blocks_written == acknowledged
                    &&& acknowledged < first.blocks.len()
                    &&& error == ControllerError::SpiWriteFailed || error
                        == ControllerError::TransportFailed
                },
                _ => false,
            }
        },
    }
}

/// The state belongs to the flash write that began as `first`.
pub open spec fn flash_state(state: Exchange, first: Exchange) -> bool {
    &&& state.kind == first.kind
    &&& state.task == Task::Flash
    &&& state.blocks == first.blocks
}

/// One more reply leaves a flash write in its order.
proof fn lemma_flash_step(course: Course, reply: Reply, first: Exchange, acknowledged: nat)
    requires
        flash_course(course, first, acknowledged),
    ensures
        flash_course(
            feed(course, reply),
            first,
            if course is Read && acknowledges(reply) {
                acknowledged + 1
            } else {
                acknowledged
            },
        ),
{
    let after = feed(course, reply);
    lemma_feed_wf(course, reply);
    match course {
        Course::Write { report, state } => {},
        Course::Read { capacity, timeout_ms, state } => {
            if after is Write {
                assert(after->report == spi_write_frame(
                    state.timing,
                    first.blocks[acknowledged as int].address,
                    first.blocks[acknowledged as int].payload,
                ));
            }
        },
        Course::Sleep { millis, state } => {
            if after is Write {
                assert(after->report == spi_write_frame(
                    state.timing,
                    first.blocks[after->Write_state.written as int].address,
                    first.blocks[after->Write_state.written as int].payload,
                ));
            }
        },
        Course::Done { kind, timing, verdict } => {},
    }
}

/// A flash write sends its blocks in their order and goes on to the next
/// block only after the device acknowledged the one before. It ends as
/// written exactly when every block was acknowledged. When it fails, it
/// tells how many blocks were acknowledged before, and so whether anything
/// was written at all.
pub proof fn lemma_flash_in_order(
    kind: ControllerType,
    timing: u8,
    blocks: Seq<Block>,
    replies: Seq<Reply>,
)
    requires
        fresh(kind, timing, Task::Flash, blocks).wf(),
    ensures
        flash_course(
            run(start(kind, timing, Task::Flash, blocks), replies),
            fresh(kind, timing, Task::Flash, blocks),
            blocks_acknowledged(start(kind, timing, Task::Flash, blocks), replies),
        ),
    decreases replies.len(),
{
    let first = start(kind, timing, Task::Flash, blocks);
    if replies.len() > 0 {
        let earlier = replies.drop_last();
        lemma_flash_in_order(kind, timing, blocks, earlier);
        lemma_flash_step(
            run(first, earlier),
            replies.last(),
            fresh(kind, timing, Task::Flash, blocks),
            blocks_acknowledged(first, earlier),
        );
    } else {
        if blocks.len() > 0 {
            assert(first->report == spi_write_frame(timing, blocks[0].address, blocks[0].payload));
        }
    }
}

/// A reply that neither refuses an output report nor answers the command
/// of the request.
pub open spec fn unanswered(task: Task, reply: Reply) -> bool {
    match reply {
        Reply::Written(ok) => ok,
        Reply::Received(Some(report)) => !answers(task, report),
        _ => true,
    }
}

/// A request with one command: for the device information, or to write one
/// block that a flash write can take.
pub open spec fn single_command(task: Task, blocks: Seq<Block>) -> bool {
    ||| task == Task::DeviceInfo && blocks.len() == 0
    ||| task == Task::Flash && blocks.len() == 1 && blocks[0].payload.len() <= MAX_SPI_PAYLOAD
}

/// The state of a request with one command that was sent `sent` times and
/// never answered.
pub open spec fn unanswered_state(state: Exchange, first: Exchange, sent: nat) -> bool {
    &&& state.wf()
    &&& state.kind == first.kind
    &&& state.task == first.task
    &&& state.blocks == first.blocks
    &&& state.written == 0
    &&& state.attempts == sent
    &&& state.timing == advanced_by(first.timing, sent)
    &&& !state.acked
}

/// Where a request with one command stands that was sent `sent` times and
/// never answered: it still waits, or it was given up after the last
/// attempt.
pub open spec fn unanswered_course(course: Course, first: Exchange, sent: nat) -> bool {
    &&& 1 <= sent <= MAX_ATTEMPTS
    &&& course.wf()
    &&& match course {
        Course::Write { report, state } => {
            &&& report == command_frame(
                Exchange { timing: advanced_by(first.timing, (sent - 1) as nat), ..first },
            )
            &&& unanswered_state(state, first, sent)
        },
        Course::Read { capacity, timeout_ms, state } => unanswered_state(state, first, sent),
        Course::Sleep { millis, state } => unanswered_state(state, first, sent),
        Course::Done { kind, timing, verdict } => {
            &&& sent == MAX_ATTEMPTS
            &&& kind == first.kind
            &&& timing == advanced_by(first.timing, MAX_ATTEMPTS as nat)
            &&& verdict == Verdict::Failed { error: exhausted(first.task), blocks_written: 0 }
        },
    }
}

/// One more reply without an answer leaves an unanswered request
/// unanswered, and counts as one more attempt if it leads to the next
/// output report.
proof fn lemma_unanswered_step(course: Course, reply: Reply, first: Exchange, sent: nat)
    requires
        single_command(first.task, first.blocks),
        first == fresh(first.kind, first.timing, first.task, first.blocks),
        unanswered_course(course, first, sent),
        unanswered(first.task, reply),
    ensures
        unanswered_course(
            feed(course, reply),
            first,
            if feed(course, reply) is Write && !(course is Write) {
                sent + 1
            } else {
                sent
            },
        ),
{
    let after = feed(course, reply);
    assert(advanced(advanced_by(first.timing, sent)) == advanced_by(first.timing, sent + 1));
    lemma_feed_wf(course, reply);
    match course {
        Course::Write { report, state } => {},
        Course::Read { capacity, timeout_ms, state } => {
            if after is Write {
                assert(after == send(state) || after == send(
                    Exchange { polls: state.polls + 1, ..state },
                ));
            }
        },
        Course::Sleep { millis, state } => {
            if reply is Rested {
                assert(after == retry(state));
            }
        },
        Course::Done { kind, timing, verdict } => {},
    }
}

/// A request with one command that the device never answers sends the
/// command `MAX_ATTEMPTS` times, each time with the next value of the
/// rolling counter, and is then given up: a flash write fails as not
/// acknowledged with no block written, a request for the device information
/// as unavailable. It never ends in any other way, whatever else comes
/// back and in whatever order.
pub proof fn lemma_unanswered_request_fails(
    kind: ControllerType,
    timing: u8,
    task: Task,
    blocks: Seq<Block>,
    replies: Seq<Reply>,
)
    requires
        single_command(task, blocks),
        forall|i: int| 0 <= i < replies.len() ==> unanswered(task, #[trigger] replies[i]),
    ensures
        unanswered_course(
            run(start(kind, timing, task, blocks), replies),
            fresh(kind, timing, task, blocks),
            commands_sent(start(kind, timing, task, blocks), replies),
        ),
    decreases replies.len(),
{
    let first = start(kind, timing, task, blocks);
    if replies.len() > 0 {
        let earlier = replies.drop_last();
        lemma_unanswered_request_fails(kind, timing, task, blocks, earlier);
        assert(unanswered(task, replies.last()));
        lemma_unanswered_step(
            run(first, earlier),
            replies.last(),
            fresh(kind, timing, task, blocks),
            commands_sent(first, earlier),
        );
    } else {
        assert(first is Write);
    }
}

/// A request with one command that the device never answers is over after
/// 200 replies at the latest, if every reply is of the kind that was waited
/// for.
pub proof fn lemma_unanswered_request_ends(
    kind: ControllerType,
    timing: u8,
    task: Task,
    blocks: Seq<Block>,
    replies: Seq<Reply>,
)
    requires
        single_command(task, blocks),
        answered(start(kind, timing, task, blocks), replies),
    ensures
        replies.len() <= 200,
        replies.len() == 200 ==> run(start(kind, timing, task, blocks), replies) is Done,
{
    lemma_start_wf(kind, timing, task, blocks);
    lemma_start_budget(kind, timing, task, blocks);
    lemma_run_bounded(start(kind, timing, task, blocks), replies);
}

} // verus!
