//! What holds of the driver over whole operations: how long it polls, when
//! an access succeeds, and that its state only moves forward.

use vstd::prelude::*;
use crate::driver::{
    begin_model, bringup_access, bringup_model, bringup_state, finish_model, init_model, is_best_effort, is_ready, is_valid,
    replies_left, resume_model, task_fits, ControllerState, DriverView, Job, Task, BRINGUP_STEPS,
};
use crate::protocol::{Access, Error, Reply, Request, Step, TIMEOUT};

verus! {

/// The driver and its last step after the host has reported each of
/// `replies` in turn, starting from `start`.
pub open spec fn run_model(start: (DriverView, Step), replies: Seq<Reply>) -> (DriverView, Step)
    decreases replies.len(),
{
    if replies.len() == 0 {
        start
    } else {
        resume_model(run_model(start, replies.drop_last()).0, replies.last())
    }
}

/// The replies that report each of `statuses` in turn.
pub open spec fn status_replies(statuses: Seq<u8>) -> Seq<Reply> {
    Seq::new(statuses.len(), |i: int| Reply::Status(statuses[i]))
}

/// Whether none of `statuses` says that the controller is ready.
pub open spec fn never_ready(statuses: Seq<u8>) -> bool {
    forall|i: int| 0 <= i < statuses.len() ==> !is_ready(#[trigger] statuses[i])
}

/// How far a place in the life of the controller lies from its beginning.
pub open spec fn rank(state: ControllerState) -> int {
    match state {
        ControllerState::Uninitialized => 0,
        ControllerState::DevicesDisabled => 1,
        ControllerState::OutputFlushed => 2,
        ControllerState::DevicesEnabled => 3,
        ControllerState::Ready => 4,
        ControllerState::Faulted => 5,
    }
}

/// While the controller is not ready the driver polls on, and the access is
/// given up at the `TIMEOUT`-th poll: not before, and not later.
pub proof fn lemma_polls_until_timeout(
    d: DriverView,
    task: Task,
    access: Access,
    statuses: Seq<u8>,
)
    requires
        !(d.state is Faulted),
        task_fits(d.state, task, access),
        never_ready(statuses),
        statuses.len() <= TIMEOUT,
    ensures
        statuses.len() < TIMEOUT ==> run_model(
            begin_model(d, task, access),
            status_replies(statuses),
        ) == (
            DriverView {
                state: d.state,
                job: Job::Waiting { task, access, polls: statuses.len() as usize },
            },
            Step::Port(Request::ReadStatus),
        ),
        statuses.len() == TIMEOUT ==> run_model(
            begin_model(d, task, access),
            status_replies(statuses),
        ) == finish_model(d.state, task, Err(access.timeout_of())),
    decreases statuses.len(),
{
    let replies = status_replies(statuses);
    if statuses.len() > 0 {
        let earlier = statuses.drop_last();
        assert(never_ready(earlier)) by {
            assert forall|i: int| 0 <= i < earlier.len() implies !is_ready(
                #[trigger] earlier[i],
            ) by {
                assert(earlier[i] == statuses[i]);
            }
        }
        lemma_polls_until_timeout(d, task, access, earlier);
        assert(replies.drop_last() =~= status_replies(earlier));
        assert(replies.last() == Reply::Status(statuses.last()));
        assert(!is_ready(statuses[statuses.len() - 1]));
    }
}

/// A read that never finds a byte waiting ends with `ReadTimeout` at the
/// `TIMEOUT`-th poll, and leaves the driver idle in the state it had.
pub proof fn lemma_read_times_out(d: DriverView, statuses: Seq<u8>)
    requires
        !(d.state is Faulted),
        never_ready(statuses),
        statuses.len() == TIMEOUT,
    ensures
        run_model(begin_model(d, Task::Read, Access::ReadData), status_replies(statuses)) == (
            DriverView { state: d.state, job: Job::Idle },
            Step::Done(Err(Error::ReadTimeout)),
        ),
{
    lemma_polls_until_timeout(d, Task::Read, Access::ReadData, statuses);
}

/// An access succeeds when the controller is ready at one of the first
/// `TIMEOUT` polls: the driver asks for the access right then, and the
/// host's report of it ends the access with the byte, if it was a read.
pub proof fn lemma_ready_then_access(
    d: DriverView,
    task: Task,
    access: Access,
    waited: Seq<u8>,
    ready: u8,
    reply: Reply,
)
    requires
        !(d.state is Faulted),
        task_fits(d.state, task, access),
        never_ready(waited),
        waited.len() < TIMEOUT,
        is_ready(ready),
        access.answered_by(reply),
    ensures
        run_model(
            begin_model(d, task, access),
            status_replies(waited).push(Reply::Status(ready)),
        ) == (
            DriverView { state: d.state, job: Job::Accessing { task, access } },
            Step::Port(access.request_of()),
        ),
        run_model(
            begin_model(d, task, access),
            status_replies(waited).push(Reply::Status(ready)).push(reply),
        ) == finish_model(d.state, task, Ok(reply.byte_of())),
{
    lemma_polls_until_timeout(d, task, access, waited);
    let polled = status_replies(waited).push(Reply::Status(ready));
    let start = begin_model(d, task, access);
    assert(polled.drop_last() =~= status_replies(waited));
    assert(run_model(start, polled) == resume_model(
        run_model(start, status_replies(waited)).0,
        Reply::Status(ready),
    ));
    let whole = polled.push(reply);
    assert(whole.drop_last() =~= polled);
    assert(run_model(start, whole) == resume_model(run_model(start, polled).0, reply));
}

/// A step of the bring-up that runs out of polls faults the driver, unless
/// it is the flush: the operation ends with `NoMoreTries`, nothing is in
/// flight, and so no further access is asked for.
pub proof fn lemma_bringup_faults(step: int, statuses: Seq<u8>)
    requires
        0 <= step < BRINGUP_STEPS,
        !is_best_effort(step),
        never_ready(statuses),
        statuses.len() == TIMEOUT,
    ensures
        run_model(bringup_model(step), status_replies(statuses)) == (
            DriverView { state: ControllerState::Faulted, job: Job::Idle },
            Step::Done(Err(Error::NoMoreTries)),
        ),
{
    let task = Task::Bringup(step as usize);
    let access = bringup_access(step);
    let idle = DriverView { state: bringup_state(step), job: Job::Idle };
    assert(begin_model(idle, task, access) == bringup_model(step));
    lemma_polls_until_timeout(idle, task, access, statuses);
}

/// The flush may find nothing: the bring-up goes on to enable the ports.
pub proof fn lemma_flush_may_time_out(statuses: Seq<u8>)
    requires
        never_ready(statuses),
        statuses.len() == TIMEOUT,
    ensures
        run_model(bringup_model(2), status_replies(statuses)) == bringup_model(3),
{
    let idle = DriverView { state: bringup_state(2), job: Job::Idle };
    assert(begin_model(idle, Task::Bringup(2), Access::ReadData) == bringup_model(2));
    lemma_polls_until_timeout(idle, Task::Bringup(2), Access::ReadData, statuses);
}

/// No operation goes on for ever: a read or a write asks for at most
/// `TIMEOUT` polls and the access itself, the bring-up for at most that for
/// each of its steps.
pub proof fn lemma_operations_are_bounded(d: DriverView, task: Task, access: Access)
    requires
        is_valid(d),
        task is Read || task is Write,
    ensures
        replies_left(begin_model(d, task, access).0) <= TIMEOUT + 1,
        replies_left(init_model(d).0) <= BRINGUP_STEPS * (TIMEOUT + 1),
{
}

/// A faulted driver stays faulted and idle and never asks for an access,
/// whatever is begun and whatever is reported.
pub proof fn lemma_faulted_is_final(d: DriverView, task: Task, access: Access, reply: Reply)
    requires
        is_valid(d),
        d.state is Faulted,
    ensures
        begin_model(d, task, access) == (d, Step::Done(Err(Error::NoMoreTries))),
        init_model(d) == (d, Step::Done(Err(Error::NoMoreTries))),
        resume_model(d, reply) == (d, Step::Done(Err(Error::CommandRetry))),
        d.job is Idle,
{
}

/// The state of the controller never moves backward, and the driver stays
/// valid, whatever is begun and whatever is reported.
pub proof fn lemma_state_moves_forward(d: DriverView, task: Task, access: Access, reply: Reply)
    requires
        is_valid(d),
    ensures
        rank(resume_model(d, reply).0.state) >= rank(d.state),
        rank(init_model(d).0.state) >= rank(d.state),
        begin_model(d, task, access).0.state == d.state,
        is_valid(resume_model(d, reply).0),
        is_valid(init_model(d).0),
        task_fits(d.state, task, access) ==> is_valid(begin_model(d, task, access).0),
{
}

} // verus!
