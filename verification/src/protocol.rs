//! The vocabulary that the driver and its host share: the controller's
//! commands, the errors, and the port accesses that the driver asks for.
//!
//! The driver never touches a port. It says which access it needs next, the
//! host performs it and reports what came of it.

use vstd::prelude::*;

verus! {

/// How often the status register is polled for one port access before the
/// access is given up. One bound serves reads, writes and commands alike.
pub const TIMEOUT: usize = 100;

/// The interrupt vector of the keyboard.
pub const IRQ_CODE: usize = 0x21;

/// What can go wrong at the controller.
#[derive(Clone, Copy, Debug, PartialEq, Eq, Structural)]
pub enum Error {
    /// The host reported something that does not answer the access asked
    /// for, or reported with no operation in flight: the operation, if any,
    /// is abandoned and has to be issued again.
    CommandRetry,
    /// The bring-up of the controller could not be completed. The driver is
    /// faulted and takes no further operation.
    NoMoreTries,
    /// No byte arrived in the data register within `TIMEOUT` polls.
    ReadTimeout,
    /// The controller was not ready for a write within `TIMEOUT` polls.
    WriteTimeout,
}

/// The one-byte commands of the controller.
#[derive(Clone, Copy, Debug, PartialEq, Eq, Structural)]
pub enum Command {
    ReadConfig,
    WriteConfig,
    DisableSecond,
    EnableSecond,
    TestSecond,
    TestController,
    TestFirst,
    Diagnostic,
    DisableFirst,
    EnableFirst,
    WriteSecond,
}

impl Command {
    /// The byte that stands for the command in the command register.
    pub open spec fn code_of(self) -> u8 {
        match self {
            Command::ReadConfig => 0x20,
            Command::WriteConfig => 0x60,
            Command::DisableSecond => 0xA7,
            Command::EnableSecond => 0xA8,
            Command::TestSecond => 0xA9,
            Command::TestController => 0xAA,
            Command::TestFirst => 0xAB,
            Command::Diagnostic => 0xAC,
            Command::DisableFirst => 0xAD,
            Command::EnableFirst => 0xAE,
            Command::WriteSecond => 0xD4,
        }
    }

    /// The byte that stands for the command in the command register.
    pub fn code(self) -> (byte: u8)
        ensures
            byte == self.code_of(),
    {
        match self {
            Command::ReadConfig => 0x20,
            Command::WriteConfig => 0x60,
            Command::DisableSecond => 0xA7,
            Command::EnableSecond => 0xA8,
            Command::TestSecond => 0xA9,
            Command::TestController => 0xAA,
            Command::TestFirst => 0xAB,
            Command::Diagnostic => 0xAC,
            Command::DisableFirst => 0xAD,
            Command::EnableFirst => 0xAE,
            Command::WriteSecond => 0xD4,
        }
    }
}

/// The one-byte commands of the keyboard itself, sent through the data
/// register.
#[derive(Clone, Copy, Debug, PartialEq, Eq, Structural)]
pub enum KeyboardCommand {
    EnableReporting,
    SetDefaultsDisable,
    SetDefaults,
    Reset,
}

impl KeyboardCommand {
    /// The byte that stands for the command in the data register.
    pub open spec fn code_of(self) -> u8 {
        match self {
            KeyboardCommand::EnableReporting => 0xF4,
            KeyboardCommand::SetDefaultsDisable => 0xF5,
            KeyboardCommand::SetDefaults => 0xF6,
            KeyboardCommand::Reset => 0xFF,
        }
    }

    /// The byte that stands for the command in the data register.
    pub fn code(self) -> (byte: u8)
        ensures
            byte == self.code_of(),
    {
        match self {
            KeyboardCommand::EnableReporting => 0xF4,
            KeyboardCommand::SetDefaultsDisable => 0xF5,
            KeyboardCommand::SetDefaults => 0xF6,
            KeyboardCommand::Reset => 0xFF,
        }
    }
}

/// An access to one of the controller's registers, asked of the host.
#[derive(Clone, Copy, Debug, PartialEq, Eq, Structural)]
pub enum Request {
    /// Read the status register (port 0x64) and report `Reply::Status`.
    ReadStatus,
    /// Read the data register (port 0x60) and report `Reply::Data`.
    ReadData,
    /// Write the byte to the data register and report `Reply::Written`.
    WriteData(u8),
    /// Write the byte to the command register (port 0x64) and report
    /// `Reply::Written`.
    WriteCommand(u8),
}

/// What the host reports of the access it has performed.
#[derive(Clone, Copy, Debug, PartialEq, Eq, Structural)]
pub enum Reply {
    /// The value read from the status register.
    Status(u8),
    /// The byte read from the data register.
    Data(u8),
    /// The write was made.
    Written,
}

/// What the driver says after each call: the access that it needs next, or
/// how the operation ended.
#[derive(Clone, Copy, Debug, PartialEq, Eq)]
pub enum Step {
    /// The host performs the access and hands the reply to `resume`.
    Port(Request),
    /// The operation is over. A read ends with the byte read, every other
    /// operation with `None`.
    Done(Result<Option<u8>, Error>),
}

/// The register access that an operation waits to make once the controller
/// is ready for it.
#[derive(Clone, Copy, Debug, PartialEq, Eq, Structural)]
pub enum Access {
    ReadData,
    WriteData(u8),
    WriteCommand(u8),
}

impl Access {
    /// The request that asks the host for this access.
    pub open spec fn request_of(self) -> Request {
        match self {
            Access::ReadData => Request::ReadData,
            Access::WriteData(byte) => Request::WriteData(byte),
            Access::WriteCommand(byte) => Request::WriteCommand(byte),
        }
    }

    /// The error of an access that the controller never became ready for.
    pub open spec fn timeout_of(self) -> Error {
        match self {
            Access::ReadData => Error::ReadTimeout,
            _ => Error::WriteTimeout,
        }
    }

    /// Whether `reply` is what the host reports of this access.
    pub open spec fn answered_by(self, reply: Reply) -> bool {
        match self {
            Access::ReadData => reply is Data,
            _ => reply is Written,
        }
    }

    /// The request that asks the host for this access.
    pub fn request(self) -> (request: Request)
        ensures
            request == self.request_of(),
    {
        match self {
            Access::ReadData => Request::ReadData,
            Access::WriteData(byte) => Request::WriteData(byte),
            Access::WriteCommand(byte) => Request::WriteCommand(byte),
        }
    }

    /// The error of an access that the controller never became ready for.
    pub fn timeout(self) -> (error: Error)
        ensures
            error == self.timeout_of(),
    {
        match self {
            Access::ReadData => Error::ReadTimeout,
            _ => Error::WriteTimeout,
        }
    }
}

impl Reply {
    /// The byte that the reply carries from the data register, if any.
    pub open spec fn byte_of(self) -> Option<u8> {
        match self {
            Reply::Data(byte) => Some(byte),
            _ => None,
        }
    }
}

} // verus!
