//! The controller driver: bounded polling for each port access, and the
//! bring-up of the controller, as a machine that the host steps.
//!
//! An operation is begun by `read_data`, `write_data`, `write_cmd` or
//! `init_keyboard`. Each answers with a `Step`: either the port access that
//! the host has to perform next, whose outcome goes to `resume`, or the end
//! of the operation. The driver counts the polls itself, so no operation
//! asks for more than a fixed number of accesses.

use vstd::prelude::*;
use crate::protocol::{Access, Command, Error, Reply, Request, Step, TIMEOUT};
use crate::status::{has_all, StatusFlags, OUTPUT_FULL};

verus! {

/// Where the controller stands in its life. It only moves forward, or to
/// `Faulted`, which it never leaves.
#[derive(Clone, Copy, Debug, PartialEq, Eq, Structural)]
pub enum ControllerState {
    /// Nothing has been done to the controller yet.
    Uninitialized,
    /// Both ports have been told to stop sending.
    DevicesDisabled,
    /// A stale byte in the output buffer, if there was one, has been read.
    OutputFlushed,
    /// Both ports have been told to send again. Nothing remains to be done
    /// from here, so the bring-up goes straight on to `Ready`.
    DevicesEnabled,
    /// The bring-up is complete.
    Ready,
    /// A step of the bring-up ran out of polls. The driver takes no further
    /// operation.
    Faulted,
}

/// What the access in flight is made for.
#[derive(Clone, Copy, Debug, PartialEq, Eq, Structural)]
pub enum Task {
    /// A read begun by `read_data`.
    Read,
    /// A write begun by `write_data` or `write_cmd`.
    Write,
    /// The step of this number in the bring-up.
    Bringup(usize),
}

/// What the driver is doing at the ports.
#[derive(Clone, Copy, Debug, PartialEq, Eq, Structural)]
pub enum Job {
    /// No operation is in flight.
    Idle,
    /// The status register is being polled until the controller is ready for
    /// `access`; `polls` values have been seen so far, none of them ready.
    Waiting { task: Task, access: Access, polls: usize },
    /// The controller was ready and the host has been asked for `access`.
    Accessing { task: Task, access: Access },
}

/// The driver as the contracts see it.
pub struct DriverView {
    pub state: ControllerState,
    pub job: Job,
}

/// The driver of the controller.
pub struct Ps2Driver {
    state: ControllerState,
    job: Job,
}

/// The number of steps in the bring-up.
pub const BRINGUP_STEPS: usize = 5;

/// Whether a status value says that the controller is ready for an access:
/// the output-full flag is what reads, writes and commands all wait for.
pub open spec fn is_ready(status: u8) -> bool {
    has_all(status, OUTPUT_FULL)
}

/// The access that each step of the bring-up makes: both ports are disabled,
/// a stale byte is read out of the way, both ports are enabled.
pub open spec fn bringup_access(step: int) -> Access {
    if step == 0 {
        Access::WriteCommand(Command::DisableFirst.code_of())
    } else if step == 1 {
        Access::WriteCommand(Command::DisableSecond.code_of())
    } else if step == 2 {
        Access::ReadData
    } else if step == 3 {
        Access::WriteCommand(Command::EnableFirst.code_of())
    } else {
        Access::WriteCommand(Command::EnableSecond.code_of())
    }
}

/// Whether a step of the bring-up may fail without harm: only the read that
/// flushes the output buffer, which finds nothing where nothing was stale.
pub open spec fn is_best_effort(step: int) -> bool {
    step == 2
}

/// The state that stands committed once the steps before the one of this
/// number are done: the devices are disabled after the first two, the output
/// is flushed after the third, and the devices are enabled after all five.
pub open spec fn bringup_state(step: int) -> ControllerState {
    if step < 2 {
        ControllerState::Uninitialized
    } else if step < 3 {
        ControllerState::DevicesDisabled
    } else if step < 5 {
        ControllerState::OutputFlushed
    } else {
        ControllerState::DevicesEnabled
    }
}

/// The first step that a bring-up still has to make from a committed state.
/// It never goes back: a controller that is ready has none left.
pub open spec fn bringup_start(state: ControllerState) -> int {
    match state {
        ControllerState::Uninitialized => 0,
        ControllerState::DevicesDisabled => 2,
        ControllerState::OutputFlushed => 3,
        _ => 5,
    }
}

/// Whether a task may wait for an access while a state stands committed.
pub open spec fn task_fits(state: ControllerState, task: Task, access: Access) -> bool {
    match task {
        Task::Read => access is ReadData,
        Task::Write => !(access is ReadData),
        Task::Bringup(step) => step < BRINGUP_STEPS && access == bringup_access(step as int)
            && state == bringup_state(step as int),
    }
}

/// The states that a driver can be in.
pub open spec fn is_valid(d: DriverView) -> bool {
    match d.job {
        Job::Idle => true,
        Job::Waiting { task, access, polls } => polls < TIMEOUT && !(d.state is Faulted)
            && task_fits(d.state, task, access),
        Job::Accessing { task, access } => !(d.state is Faulted) && task_fits(
            d.state,
            task,
            access,
        ),
    }
}

/// The most replies that the operation in flight can still ask for.
pub open spec fn replies_left(d: DriverView) -> nat {
    match d.job {
        Job::Idle => 0,
        Job::Waiting { task, access, polls } => ((TIMEOUT - polls) + 1 + steps_after(task)) as nat,
        Job::Accessing { task, access } => 1 + steps_after(task),
    }
}

/// The most replies that the steps after the one in flight can ask for.
pub open spec fn steps_after(task: Task) -> nat {
    match task {
        Task::Bringup(step) => if step < BRINGUP_STEPS {
            ((BRINGUP_STEPS - 1 - step) * (TIMEOUT + 1)) as nat
        } else {
            0
        },
        _ => 0,
    }
}

/// The beginning of an access: a faulted driver refuses, any other drops
/// what was in flight and starts to poll.
pub open spec fn begin_model(d: DriverView, task: Task, access: Access) -> (DriverView, Step) {
    if d.state is Faulted {
        (d, Step::Done(Err(Error::NoMoreTries)))
    } else {
        (
            DriverView { state: d.state, job: Job::Waiting { task, access, polls: 0 } },
            Step::Port(Request::ReadStatus),
        )
    }
}

/// The bring-up from the step of this number on: the next step starts to
/// poll. With no step left the devices are enabled, nothing remains to be
/// done, and the controller goes on to be ready at once.
pub open spec fn bringup_model(step: int) -> (DriverView, Step) {
    if step >= BRINGUP_STEPS {
        (DriverView { state: ControllerState::Ready, job: Job::Idle }, Step::Done(Ok(None)))
    } else {
        (
            DriverView {
                state: bringup_state(step),
                job: Job::Waiting {
                    task: Task::Bringup(step as usize),
                    access: bringup_access(step),
                    polls: 0,
                },
            },
            Step::Port(Request::ReadStatus),
        )
    }
}

/// The beginning of the bring-up: a faulted driver refuses, any other goes
/// on from the state that stands committed.
pub open spec fn init_model(d: DriverView) -> (DriverView, Step) {
    if d.state is Faulted {
        (d, Step::Done(Err(Error::NoMoreTries)))
    } else {
        bringup_model(bringup_start(d.state))
    }
}

/// The end of an access that was made for `task`. A read or a write ends
/// with the outcome of the access. In the bring-up an outcome that is good,
/// or that of the best-effort step, leads to the next step, and any other
/// faults the driver for good.
pub open spec fn finish_model(
    state: ControllerState,
    task: Task,
    outcome: Result<Option<u8>, Error>,
) -> (DriverView, Step) {
    match task {
        Task::Bringup(step) => if outcome is Err && !is_best_effort(step as int) {
            (
                DriverView { state: ControllerState::Faulted, job: Job::Idle },
                Step::Done(Err(Error::NoMoreTries)),
            )
        } else {
            bringup_model(step + 1)
        },
        _ => (DriverView { state, job: Job::Idle }, Step::Done(outcome)),
    }
}

/// What a reply does to the driver.
///
/// While the status is polled, a ready status leads to the access itself, a
/// status that is not ready to the next poll, and the `TIMEOUT`-th such
/// status ends the access with its time-out. The reply to the access ends
/// it with success. A reply that does not answer what was asked abandons
/// the operation.
pub open spec fn resume_model(d: DriverView, reply: Reply) -> (DriverView, Step) {
    let abandoned = (
        DriverView { state: d.state, job: Job::Idle },
        Step::Done(Err(Error::CommandRetry)),
    );
    match d.job {
        Job::Idle => abandoned,
        Job::Waiting { task, access, polls } => match reply {
            Reply::Status(status) => if is_ready(status) {
                (
                    DriverView { state: d.state, job: Job::Accessing { task, access } },
                    Step::Port(access.request_of()),
                )
            } else if polls + 1 >= TIMEOUT {
                finish_model(d.state, task, Err(access.timeout_of()))
            } else {
                (
                    DriverView {
                        state: d.state,
                        job: Job::Waiting { task, access, polls: (polls + 1) as usize },
                    },
                    Step::Port(Request::ReadStatus),
                )
            },
            _ => abandoned,
        },
        Job::Accessing { task, access } => if access.answered_by(reply) {
            finish_model(d.state, task, Ok(reply.byte_of()))
        } else {
            abandoned
        },
    }
}

impl View for Ps2Driver {
    type V = DriverView;

    closed spec fn view(&self) -> DriverView {
        DriverView { state: self.state, job: self.job }
    }
}

impl Ps2Driver {
    #[verifier::type_invariant]
    spec fn well_formed(&self) -> bool {
        is_valid(self@)
    }

    /// A driver for a controller to which nothing has been done yet.
    pub fn new() -> (driver: Ps2Driver)
        ensures
            driver@ == (DriverView { state: ControllerState::Uninitialized, job: Job::Idle }),
    {
        Ps2Driver { state: ControllerState::Uninitialized, job: Job::Idle }
    }

    /// Where the controller stands in its life.
    pub fn state(&self) -> (state: ControllerState)
        ensures
            state == self@.state,
            is_valid(self@),
    {
        proof {
            use_type_invariant(self);
        }
        self.state
    }

    /// Whether an operation is in flight, so that `resume` is owed a reply.
    pub fn is_busy(&self) -> (yes: bool)
        ensures
            yes == !(self@.job is Idle),
    {
        match self.job {
            Job::Idle => false,
            _ => true,
        }
    }

    /// The status register's value as a set of flags.
    pub fn status(raw: u8) -> (flags: StatusFlags)
        ensures
            flags@ == raw,
    {
        StatusFlags::from_bits_truncate(raw)
    }

    /// Begins an access made for `task`.
    fn begin(&mut self, task: Task, access: Access) -> (step: Step)
        requires
            task_fits(old(self)@.state, task, access),
        ensures
            (final(self)@, step) == begin_model(old(self)@, task, access),
    {
        match self.state {
            ControllerState::Faulted => Step::Done(Err(Error::NoMoreTries)),
            _ => {
                self.job = Job::Waiting { task, access, polls: 0 };
                Step::Port(Request::ReadStatus)
            },
        }
    }

    /// Begins the read of one byte from the data register. The operation
    /// ends with the byte, or with `ReadTimeout` once `TIMEOUT` polls have
    /// found no byte waiting.
    pub fn read_data(&mut self) -> (step: Step)
        ensures
            (final(self)@, step) == begin_model(old(self)@, Task::Read, Access::ReadData),
    {
        self.begin(Task::Read, Access::ReadData)
    }

    /// Begins the write of `data` to the data register. The operation ends
    /// with `None`, or with `WriteTimeout` once `TIMEOUT` polls have not
    /// found the controller ready.
    pub fn write_data(&mut self, data: u8) -> (step: Step)
        ensures
            (final(self)@, step) == begin_model(old(self)@, Task::Write, Access::WriteData(data)),
    {
        self.begin(Task::Write, Access::WriteData(data))
    }

    /// Begins the write of `cmd` to the command register. The operation ends
    /// as that of `write_data` does.
    pub fn write_cmd(&mut self, cmd: Command) -> (step: Step)
        ensures
            (final(self)@, step) == begin_model(
                old(self)@,
                Task::Write,
                Access::WriteCommand(cmd.code_of()),
            ),
    {
        self.begin(Task::Write, Access::WriteCommand(cmd.code()))
    }

    /// The access of one step of the bring-up.
    fn step_access(step: usize) -> (access: Access)
        requires
            step < BRINGUP_STEPS,
        ensures
            access == bringup_access(step as int),
    {
        if step == 0 {
            Access::WriteCommand(Command::DisableFirst.code())
        } else if step == 1 {
            Access::WriteCommand(Command::DisableSecond.code())
        } else if step == 2 {
            Access::ReadData
        } else if step == 3 {
            Access::WriteCommand(Command::EnableFirst.code())
        } else {
            Access::WriteCommand(Command::EnableSecond.code())
        }
    }

    /// The state that stands committed before one step of the bring-up.
    fn step_state(step: usize) -> (state: ControllerState)
        ensures
            state == bringup_state(step as int),
    {
        if step < 2 {
            ControllerState::Uninitialized
        } else if step < 3 {
            ControllerState::DevicesDisabled
        } else if step < 5 {
            ControllerState::OutputFlushed
        } else {
            ControllerState::DevicesEnabled
        }
    }

    /// Goes on with the bring-up from the step of this number.
    fn bringup(&mut self, step: usize) -> (result: Step)
        requires
            step <= BRINGUP_STEPS,
        ensures
            (final(self)@, result) == bringup_model(step as int),
    {
        if step >= BRINGUP_STEPS {
            *self = Ps2Driver { state: ControllerState::Ready, job: Job::Idle };
            Step::Done(Ok(None))
        } else {
            *self = Ps2Driver {
                state: Self::step_state(step),
                job: Job::Waiting {
                    task: Task::Bringup(step),
                    access: Self::step_access(step),
                    polls: 0,
                },
            };
            Step::Port(Request::ReadStatus)
        }
    }

    /// Begins the bring-up of the controller, or goes on with one that was
    /// abandoned: both ports are disabled, the output buffer is flushed, both
    /// ports are enabled. The state moves forward as the steps succeed. The
    /// operation ends with `None` and the controller `Ready`, or, when a step
    /// other than the flush runs out of polls, with `NoMoreTries` and the
    /// driver `Faulted`.
    pub fn init_keyboard(&mut self) -> (step: Step)
        ensures
            (final(self)@, step) == init_model(old(self)@),
    {
        match self.state {
            ControllerState::Faulted => Step::Done(Err(Error::NoMoreTries)),
            ControllerState::Uninitialized => self.bringup(0),
            ControllerState::DevicesDisabled => self.bringup(2),
            ControllerState::OutputFlushed => self.bringup(3),
            _ => self.bringup(5),
        }
    }

    /// Ends the access that was made for `task`.
    fn finish(&mut self, task: Task, outcome: Result<Option<u8>, Error>) -> (step: Step)
        requires
            task matches Task::Bringup(at) ==> at < BRINGUP_STEPS,
        ensures
            (final(self)@, step) == finish_model(old(self)@.state, task, outcome),
    {
        match task {
            Task::Bringup(at) => {
                if outcome.is_err() && at != 2 {
                    *self = Ps2Driver { state: ControllerState::Faulted, job: Job::Idle };
                    Step::Done(Err(Error::NoMoreTries))
                } else {
                    self.bringup(at + 1)
                }
            },
            _ => {
                self.job = Job::Idle;
                Step::Done(outcome)
            },
        }
    }

    /// Drops the operation in flight.
    fn abandon(&mut self) -> (step: Step)
        ensures
            final(self)@ == (DriverView { state: old(self)@.state, job: Job::Idle }),
            step == Step::Done(Err(Error::CommandRetry)),
    {
        self.job = Job::Idle;
        Step::Done(Err(Error::CommandRetry))
    }

    /// Takes the host's report of the access that the last step asked for,
    /// and says what comes next. Each reply that does not end the operation
    /// brings its end nearer, so an operation asks for no more than
    /// `replies_left` accesses.
    pub fn resume(&mut self, reply: Reply) -> (step: Step)
        ensures
            (final(self)@, step) == resume_model(old(self)@, reply),
            is_valid(old(self)@),
            is_valid(final(self)@),
            step is Port ==> replies_left(final(self)@) < replies_left(old(self)@),
            step is Done ==> final(self)@.job is Idle,
    {
        proof {
            use_type_invariant(&*self);
        }
        match self.job {
            Job::Idle => self.abandon(),
            Job::Waiting { task, access, polls } => match reply {
                Reply::Status(raw) => {
                    if Self::status(raw).output_full() {
                        self.job = Job::Accessing { task, access };
                        Step::Port(access.request())
                    } else if polls + 1 >= TIMEOUT {
                        self.finish(task, Err(access.timeout()))
                    } else {
                        self.job = Job::Waiting { task, access, polls: polls + 1 };
                        Step::Port(Request::ReadStatus)
                    }
                },
                _ => self.abandon(),
            },
            Job::Accessing { task, access } => match (access, reply) {
                (Access::ReadData, Reply::Data(byte)) => self.finish(task, Ok(Some(byte))),
                (Access::WriteData(_), Reply::Written) => self.finish(task, Ok(None)),
                (Access::WriteCommand(_), Reply::Written) => self.finish(task, Ok(None)),
                _ => self.abandon(),
            },
        }
    }
}

} // verus!
