use ps2_keyboard::driver::{ControllerState, Ps2Driver};
use ps2_keyboard::protocol::{Command, Error, Reply, Request, Step, TIMEOUT};
use ps2_keyboard::status::{INPUT_FULL, OUTPUT_FULL, SYSTEM};

/// A controller made of a script: the status values that it shows one
/// after another (then `idle` for ever), and the bytes in its data register.
struct Script {
    statuses: Vec<u8>,
    idle: u8,
    data: Vec<u8>,
    asked: Vec<Request>,
}

impl Script {
    fn new(statuses: Vec<u8>, idle: u8, data: Vec<u8>) -> Script {
        Script { statuses, idle, data, asked: Vec::new() }
    }

    fn perform(&mut self, request: Request) -> Reply {
        self.asked.push(request);
        match request {
            Request::ReadStatus => {
                if self.statuses.is_empty() {
                    Reply::Status(self.idle)
                } else {
                    Reply::Status(self.statuses.remove(0))
                }
            }
            Request::ReadData => {
                if self.data.is_empty() {
                    Reply::Data(0)
                } else {
                    Reply::Data(self.data.remove(0))
                }
            }
            Request::WriteData(_) | Request::WriteCommand(_) => Reply::Written,
        }
    }

    fn polls(&self) -> usize {
        self.asked.iter().filter(|r| **r == Request::ReadStatus).count()
    }

    fn writes(&self) -> Vec<Request> {
        self.asked
            .iter()
            .filter(|r| matches!(r, Request::WriteData(_) | Request::WriteCommand(_)))
            .cloned()
            .collect()
    }
}

fn run(driver: &mut Ps2Driver, ports: &mut Script, first: Step) -> Result<Option<u8>, Error> {
    let mut step = first;
    let mut turns = 0;
    loop {
        match step {
            Step::Done(outcome) => return outcome,
            Step::Port(request) => {
                turns += 1;
                assert!(turns <= 5 * (TIMEOUT + 1));
                step = driver.resume(ports.perform(request));
            }
        }
    }
}

#[test]
fn new_driver_is_uninitialized_and_idle() {
    let driver = Ps2Driver::new();
    assert_eq!(driver.state(), ControllerState::Uninitialized);
    assert!(!driver.is_busy());
}

#[test]
fn status_decodes_register_value() {
    assert_eq!(Ps2Driver::status(0x1D).bits(), 0x1D);
    assert!(Ps2Driver::status(0x1D).output_full());
    assert!(!Ps2Driver::status(0x1C).output_full());
}

#[test]
fn read_times_out_after_exactly_timeout_polls() {
    let mut driver = Ps2Driver::new();
    let mut ports = Script::new(vec![], INPUT_FULL | SYSTEM, vec![0x1E]);
    let mut step = driver.read_data();
    for poll in 1..=TIMEOUT {
        assert_eq!(step, Step::Port(Request::ReadStatus));
        assert!(driver.is_busy());
        step = driver.resume(ports.perform(Request::ReadStatus));
        if poll < TIMEOUT {
            assert_eq!(step, Step::Port(Request::ReadStatus));
        }
    }
    assert_eq!(step, Step::Done(Err(Error::ReadTimeout)));
    assert_eq!(ports.polls(), TIMEOUT);
    assert_eq!(ports.asked.len(), TIMEOUT);
    assert!(!driver.is_busy());
    assert_eq!(driver.state(), ControllerState::Uninitialized);
}

#[test]
fn read_returns_byte_when_output_full() {
    let mut driver = Ps2Driver::new();
    let mut ports = Script::new(vec![0, 0, OUTPUT_FULL], 0, vec![0x1E]);
    let first = driver.read_data();
    assert_eq!(run(&mut driver, &mut ports, first), Ok(Some(0x1E)));
    assert_eq!(
        ports.asked,
        vec![Request::ReadStatus, Request::ReadStatus, Request::ReadStatus, Request::ReadData]
    );
    assert!(!driver.is_busy());
}

#[test]
fn read_succeeds_on_last_poll() {
    let mut driver = Ps2Driver::new();
    let mut statuses = vec![0u8; TIMEOUT - 1];
    statuses.push(OUTPUT_FULL | SYSTEM);
    let mut ports = Script::new(statuses, 0, vec![0x42]);
    let first = driver.read_data();
    assert_eq!(run(&mut driver, &mut ports, first), Ok(Some(0x42)));
    assert_eq!(ports.polls(), TIMEOUT);
}

#[test]
fn read_ready_one_poll_too_late_times_out() {
    let mut driver = Ps2Driver::new();
    let mut statuses = vec![0u8; TIMEOUT];
    statuses.push(OUTPUT_FULL);
    let mut ports = Script::new(statuses, 0, vec![0x42]);
    let first = driver.read_data();
    assert_eq!(run(&mut driver, &mut ports, first), Err(Error::ReadTimeout));
    assert_eq!(ports.polls(), TIMEOUT);
    assert_eq!(ports.data, vec![0x42]);
}

#[test]
fn write_data_waits_then_writes() {
    let mut driver = Ps2Driver::new();
    let mut ports = Script::new(vec![0, OUTPUT_FULL], 0, vec![]);
    let first = driver.write_data(0xF4);
    assert_eq!(first, Step::Port(Request::ReadStatus));
    assert_eq!(run(&mut driver, &mut ports, first), Ok(None));
    assert_eq!(
        ports.asked,
        vec![Request::ReadStatus, Request::ReadStatus, Request::WriteData(0xF4)]
    );
}

#[test]
fn write_data_times_out() {
    let mut driver = Ps2Driver::new();
    let mut ports = Script::new(vec![], 0, vec![]);
    let first = driver.write_data(0xF4);
    assert_eq!(run(&mut driver, &mut ports, first), Err(Error::WriteTimeout));
    assert_eq!(ports.polls(), TIMEOUT);
    assert!(ports.writes().is_empty());
}

#[test]
fn write_cmd_writes_command_code() {
    let mut driver = Ps2Driver::new();
    let mut ports = Script::new(vec![], OUTPUT_FULL, vec![]);
    let first = driver.write_cmd(Command::TestController);
    assert_eq!(run(&mut driver, &mut ports, first), Ok(None));
    assert_eq!(ports.asked, vec![Request::ReadStatus, Request::WriteCommand(0xAA)]);
}

#[test]
fn write_cmd_times_out() {
    let mut driver = Ps2Driver::new();
    let mut ports = Script::new(vec![], INPUT_FULL, vec![]);
    let first = driver.write_cmd(Command::DisableFirst);
    assert_eq!(run(&mut driver, &mut ports, first), Err(Error::WriteTimeout));
    assert_eq!(ports.polls(), TIMEOUT);
    assert!(ports.writes().is_empty());
    assert_eq!(driver.state(), ControllerState::Uninitialized);
}

#[test]
fn init_runs_the_whole_sequence() {
    let mut driver = Ps2Driver::new();
    let mut ports = Script::new(vec![], OUTPUT_FULL, vec![0x99]);
    let first = driver.init_keyboard();
    assert_eq!(first, Step::Port(Request::ReadStatus));
    assert_eq!(run(&mut driver, &mut ports, first), Ok(None));
    assert_eq!(driver.state(), ControllerState::Ready);
    assert!(!driver.is_busy());
    assert_eq!(
        ports.asked,
        vec![
            Request::ReadStatus,
            Request::WriteCommand(0xAD),
            Request::ReadStatus,
            Request::WriteCommand(0xA7),
            Request::ReadStatus,
            Request::ReadData,
            Request::ReadStatus,
            Request::WriteCommand(0xAE),
            Request::ReadStatus,
            Request::WriteCommand(0xA8),
        ]
    );
    assert!(ports.data.is_empty());
}

#[test]
fn init_commits_states_step_by_step() {
    let mut driver = Ps2Driver::new();
    let mut ports = Script::new(vec![], OUTPUT_FULL, vec![]);
    let mut step = driver.init_keyboard();
    let mut seen = vec![driver.state()];
    while let Step::Port(request) = step {
        step = driver.resume(ports.perform(request));
        if *seen.last().unwrap() != driver.state() {
            seen.push(driver.state());
        }
    }
    assert_eq!(step, Step::Done(Ok(None)));
    assert_eq!(
        seen,
        vec![
            ControllerState::Uninitialized,
            ControllerState::DevicesDisabled,
            ControllerState::OutputFlushed,
            ControllerState::Ready,
        ]
    );
}

#[test]
fn init_ignores_flush_timeout() {
    let mut driver = Ps2Driver::new();
    // ready for the two disables, never ready during the flush, ready again
    let mut statuses = vec![OUTPUT_FULL, OUTPUT_FULL];
    statuses.extend(vec![0u8; TIMEOUT]);
    let mut ports = Script::new(statuses, OUTPUT_FULL, vec![]);
    let first = driver.init_keyboard();
    assert_eq!(run(&mut driver, &mut ports, first), Ok(None));
    assert_eq!(driver.state(), ControllerState::Ready);
    assert_eq!(
        ports.writes(),
        vec![
            Request::WriteCommand(0xAD),
            Request::WriteCommand(0xA7),
            Request::WriteCommand(0xAE),
            Request::WriteCommand(0xA8),
        ]
    );
    assert!(!ports.asked.contains(&Request::ReadData));
    assert_eq!(ports.polls(), 2 + TIMEOUT + 2);
}

#[test]
fn init_faults_when_second_command_fails() {
    let mut driver = Ps2Driver::new();
    let mut ports = Script::new(vec![OUTPUT_FULL], 0, vec![]);
    let first = driver.init_keyboard();
    assert_eq!(run(&mut driver, &mut ports, first), Err(Error::NoMoreTries));
    assert_eq!(driver.state(), ControllerState::Faulted);
    assert!(!driver.is_busy());
    assert_eq!(ports.writes(), vec![Request::WriteCommand(0xAD)]);
    assert_eq!(ports.polls(), 1 + TIMEOUT);
    assert_eq!(ports.asked.len(), 1 + 1 + TIMEOUT);
    assert_eq!(*ports.asked.last().unwrap(), Request::ReadStatus);
}

#[test]
fn init_faults_when_first_command_fails() {
    let mut driver = Ps2Driver::new();
    let mut ports = Script::new(vec![], 0, vec![]);
    let first = driver.init_keyboard();
    assert_eq!(run(&mut driver, &mut ports, first), Err(Error::NoMoreTries));
    assert_eq!(driver.state(), ControllerState::Faulted);
    assert!(ports.writes().is_empty());
    assert_eq!(ports.polls(), TIMEOUT);
}

#[test]
fn init_faults_when_enable_fails() {
    let mut driver = Ps2Driver::new();
    let mut ports = Script::new(vec![OUTPUT_FULL, OUTPUT_FULL, OUTPUT_FULL], 0, vec![7]);
    let first = driver.init_keyboard();
    assert_eq!(run(&mut driver, &mut ports, first), Err(Error::NoMoreTries));
    assert_eq!(driver.state(), ControllerState::Faulted);
    assert_eq!(
        ports.writes(),
        vec![Request::WriteCommand(0xAD), Request::WriteCommand(0xA7)]
    );
}

#[test]
fn faulted_driver_refuses_everything() {
    let mut driver = Ps2Driver::new();
    let mut ports = Script::new(vec![], 0, vec![]);
    let first = driver.init_keyboard();
    assert_eq!(run(&mut driver, &mut ports, first), Err(Error::NoMoreTries));
    let asked = ports.asked.len();
    assert_eq!(driver.read_data(), Step::Done(Err(Error::NoMoreTries)));
    assert_eq!(driver.write_data(1), Step::Done(Err(Error::NoMoreTries)));
    assert_eq!(driver.write_cmd(Command::EnableFirst), Step::Done(Err(Error::NoMoreTries)));
    assert_eq!(driver.init_keyboard(), Step::Done(Err(Error::NoMoreTries)));
    assert_eq!(driver.resume(Reply::Status(OUTPUT_FULL)), Step::Done(Err(Error::CommandRetry)));
    assert_eq!(driver.state(), ControllerState::Faulted);
    assert!(!driver.is_busy());
    assert_eq!(ports.asked.len(), asked);
}

#[test]
fn init_on_ready_controller_does_nothing() {
    let mut driver = Ps2Driver::new();
    let mut ports = Script::new(vec![], OUTPUT_FULL, vec![]);
    let first = driver.init_keyboard();
    assert_eq!(run(&mut driver, &mut ports, first), Ok(None));
    assert_eq!(driver.init_keyboard(), Step::Done(Ok(None)));
    assert_eq!(driver.state(), ControllerState::Ready);
}

#[test]
fn init_goes_on_where_it_was_abandoned() {
    let mut driver = Ps2Driver::new();
    let mut ports = Script::new(vec![], OUTPUT_FULL, vec![]);
    let mut step = driver.init_keyboard();
    while driver.state() == ControllerState::Uninitialized {
        match step {
            Step::Port(request) => step = driver.resume(ports.perform(request)),
            Step::Done(_) => panic!("ended early"),
        }
    }
    assert_eq!(driver.state(), ControllerState::DevicesDisabled);
    // a reply that does not answer the poll abandons the bring-up
    assert_eq!(driver.resume(Reply::Written), Step::Done(Err(Error::CommandRetry)));
    assert_eq!(driver.state(), ControllerState::DevicesDisabled);
    assert!(!driver.is_busy());
    ports.asked.clear();
    let first = driver.init_keyboard();
    assert_eq!(run(&mut driver, &mut ports, first), Ok(None));
    assert_eq!(driver.state(), ControllerState::Ready);
    assert_eq!(
        ports.asked,
        vec![
            Request::ReadStatus,
            Request::ReadData,
            Request::ReadStatus,
            Request::WriteCommand(0xAE),
            Request::ReadStatus,
            Request::WriteCommand(0xA8),
        ]
    );
}

#[test]
fn reply_without_operation_is_command_retry() {
    let mut driver = Ps2Driver::new();
    assert_eq!(driver.resume(Reply::Status(OUTPUT_FULL)), Step::Done(Err(Error::CommandRetry)));
    assert_eq!(driver.resume(Reply::Data(1)), Step::Done(Err(Error::CommandRetry)));
    assert_eq!(driver.resume(Reply::Written), Step::Done(Err(Error::CommandRetry)));
    assert_eq!(driver.state(), ControllerState::Uninitialized);
}

#[test]
fn wrong_reply_abandons_the_operation() {
    let mut driver = Ps2Driver::new();
    assert_eq!(driver.read_data(), Step::Port(Request::ReadStatus));
    assert_eq!(driver.resume(Reply::Data(5)), Step::Done(Err(Error::CommandRetry)));
    assert!(!driver.is_busy());

    assert_eq!(driver.read_data(), Step::Port(Request::ReadStatus));
    assert_eq!(driver.resume(Reply::Status(OUTPUT_FULL)), Step::Port(Request::ReadData));
    assert_eq!(driver.resume(Reply::Written), Step::Done(Err(Error::CommandRetry)));
    assert!(!driver.is_busy());

    assert_eq!(driver.write_data(9), Step::Port(Request::ReadStatus));
    assert_eq!(driver.resume(Reply::Status(OUTPUT_FULL)), Step::Port(Request::WriteData(9)));
    assert_eq!(driver.resume(Reply::Data(9)), Step::Done(Err(Error::CommandRetry)));
    assert!(!driver.is_busy());
}

#[test]
fn a_new_operation_replaces_the_one_in_flight() {
    let mut driver = Ps2Driver::new();
    assert_eq!(driver.read_data(), Step::Port(Request::ReadStatus));
    for _ in 0..TIMEOUT - 1 {
        assert_eq!(driver.resume(Reply::Status(0)), Step::Port(Request::ReadStatus));
    }
    // the polls of the read do not count against the write
    let mut ports = Script::new(vec![0u8; TIMEOUT - 1], OUTPUT_FULL, vec![]);
    let first = driver.write_data(3);
    assert_eq!(run(&mut driver, &mut ports, first), Ok(None));
    assert_eq!(ports.polls(), TIMEOUT);
}
