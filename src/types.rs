//! Controllers, command opcodes, command statuses and the protocol's errors.
use vstd::prelude::*;

verus! {

/// The 16-bit index of a hardware controller; `0xFFFF` means "no controller".
#[derive(Clone, Copy, Debug, PartialEq, Eq, Structural)]
pub struct Controller(pub u16);

/// The wire value reserved for "not controller-specific".
pub const NO_CONTROLLER: u16 = 0xFFFF;

impl Controller {
    /// The "no controller" value, for commands that address none.
    pub fn none() -> (r: Controller)
        ensures
            r.0 == NO_CONTROLLER,
    {
        Controller(NO_CONTROLLER)
    }

    /// Whether this is the "no controller" value.
    pub fn is_none(&self) -> (r: bool)
        ensures
            r == (self.0 == NO_CONTROLLER),
    {
        self.0 == NO_CONTROLLER
    }
}

/// The commands this engine knows, each with its opcode.
#[derive(Clone, Copy, Debug, PartialEq, Eq, Structural)]
pub enum ManagementCommand {
    ReadVersionInfo,
    ReadSupportedCommands,
    ReadControllerIndexList,
    ReadControllerInfo,
    SetPowered,
}

/// The opcode of a command.
pub open spec fn command_code(c: ManagementCommand) -> u16 {
    match c {
        ManagementCommand::ReadVersionInfo => 0x0001,
        ManagementCommand::ReadSupportedCommands => 0x0002,
        ManagementCommand::ReadControllerIndexList => 0x0003,
        ManagementCommand::ReadControllerInfo => 0x0004,
        ManagementCommand::SetPowered => 0x0005,
    }
}

/// The command whose opcode is `code`, if there is one.
pub open spec fn command_of(code: u16) -> Option<ManagementCommand> {
    if code == 0x0001 {
        Some(ManagementCommand::ReadVersionInfo)
    } else if code == 0x0002 {
        Some(ManagementCommand::ReadSupportedCommands)
    } else if code == 0x0003 {
        Some(ManagementCommand::ReadControllerIndexList)
    } else if code == 0x0004 {
        Some(ManagementCommand::ReadControllerInfo)
    } else if code == 0x0005 {
        Some(ManagementCommand::SetPowered)
    } else {
        None
    }
}

/// Each opcode names exactly one command.
pub proof fn lemma_command_code_round_trip(c: ManagementCommand)
    ensures
        command_of(command_code(c)) == Some(c),
{
}

impl ManagementCommand {
    /// This command's opcode.
    pub fn code(&self) -> (r: u16)
        ensures
            r == command_code(*self),
    {
        match self {
            ManagementCommand::ReadVersionInfo => 0x0001,
            ManagementCommand::ReadSupportedCommands => 0x0002,
            ManagementCommand::ReadControllerIndexList => 0x0003,
            ManagementCommand::ReadControllerInfo => 0x0004,
            ManagementCommand::SetPowered => 0x0005,
        }
    }

    /// The command with opcode `code`, if it is a known one.
    pub fn from_code(code: u16) -> (r: Option<ManagementCommand>)
        ensures
            r == command_of(code),
            r matches Some(c) ==> command_code(c) == code,
    {
        match code {
            0x0001 => Some(ManagementCommand::ReadVersionInfo),
            0x0002 => Some(ManagementCommand::ReadSupportedCommands),
            0x0003 => Some(ManagementCommand::ReadControllerIndexList),
            0x0004 => Some(ManagementCommand::ReadControllerInfo),
            0x0005 => Some(ManagementCommand::SetPowered),
            _ => None,
        }
    }
}

/// The outcome of a command.
#[derive(Clone, Copy, Debug, PartialEq, Eq, Structural)]
pub enum ManagementCommandStatus {
    Success,
    UnknownCommand,
    NotConnected,
    Failed,
    ConnectFailed,
    AuthenticationFailed,
    NotPaired,
    NoResources,
    Timeout,
    AlreadyConnected,
    Busy,
    Rejected,
    NotSupported,
    InvalidParameters,
    Disconnected,
    NotPowered,
    Cancelled,
    InvalidIndex,
    RfKilled,
    AlreadyPaired,
    PermissionDenied,
}

/// The status whose wire value is `code`, if there is one.
pub open spec fn status_of(code: u8) -> Option<ManagementCommandStatus> {
    if code == 0x00 {
        Some(ManagementCommandStatus::Success)
    } else if code == 0x01 {
        Some(ManagementCommandStatus::UnknownCommand)
    } else if code == 0x02 {
        Some(ManagementCommandStatus::NotConnected)
    } else if code == 0x03 {
        Some(ManagementCommandStatus::Failed)
    } else if code == 0x04 {
        Some(ManagementCommandStatus::ConnectFailed)
    } else if code == 0x05 {
        Some(ManagementCommandStatus::AuthenticationFailed)
    } else if code == 0x06 {
        Some(ManagementCommandStatus::NotPaired)
    } else if code == 0x07 {
        Some(ManagementCommandStatus::NoResources)
    } else if code == 0x08 {
        Some(ManagementCommandStatus::Timeout)
    } else if code == 0x09 {
        Some(ManagementCommandStatus::AlreadyConnected)
    } else if code == 0x0A {
        Some(ManagementCommandStatus::Busy)
    } else if code == 0x0B {
        Some(ManagementCommandStatus::Rejected)
    } else if code == 0x0C {
        Some(ManagementCommandStatus::NotSupported)
    } else if code == 0x0D {
        Some(ManagementCommandStatus::InvalidParameters)
    } else if code == 0x0E {
        Some(ManagementCommandStatus::Disconnected)
    } else if code == 0x0F {
        Some(ManagementCommandStatus::NotPowered)
    } else if code == 0x10 {
        Some(ManagementCommandStatus::Cancelled)
    } else if code == 0x11 {
        Some(ManagementCommandStatus::InvalidIndex)
    } else if code == 0x12 {
        Some(ManagementCommandStatus::RfKilled)
    } else if code == 0x13 {
        Some(ManagementCommandStatus::AlreadyPaired)
    } else if code == 0x14 {
        Some(ManagementCommandStatus::PermissionDenied)
    } else {
        None
    }
}

impl ManagementCommandStatus {
    /// The status with wire value `code`, if it is a known one.
    pub fn from_code(code: u8) -> (r: Option<ManagementCommandStatus>)
        ensures
            r == status_of(code),
    {
        match code {
            0x00 => Some(ManagementCommandStatus::Success),
            0x01 => Some(ManagementCommandStatus::UnknownCommand),
            0x02 => Some(ManagementCommandStatus::NotConnected),
            0x03 => Some(ManagementCommandStatus::Failed),
            0x04 => Some(ManagementCommandStatus::ConnectFailed),
            0x05 => Some(ManagementCommandStatus::AuthenticationFailed),
            0x06 => Some(ManagementCommandStatus::NotPaired),
            0x07 => Some(ManagementCommandStatus::NoResources),
            0x08 => Some(ManagementCommandStatus::Timeout),
            0x09 => Some(ManagementCommandStatus::AlreadyConnected),
            0x0A => Some(ManagementCommandStatus::Busy),
            0x0B => Some(ManagementCommandStatus::Rejected),
            0x0C => Some(ManagementCommandStatus::NotSupported),
            0x0D => Some(ManagementCommandStatus::InvalidParameters),
            0x0E => Some(ManagementCommandStatus::Disconnected),
            0x0F => Some(ManagementCommandStatus::NotPowered),
            0x10 => Some(ManagementCommandStatus::Cancelled),
            0x11 => Some(ManagementCommandStatus::InvalidIndex),
            0x12 => Some(ManagementCommandStatus::RfKilled),
            0x13 => Some(ManagementCommandStatus::AlreadyPaired),
            0x14 => Some(ManagementCommandStatus::PermissionDenied),
            _ => None,
        }
    }
}

/// Why a frame could not be used or a command did not succeed.
#[derive(Clone, Copy, Debug, PartialEq, Eq, Structural)]
#[allow(inconsistent_fields)]
pub enum ManagementError {
    /// Fewer bytes than a field or the declared payload length needs.
    MalformedFrame,
    /// A request payload longer than a 16-bit length can declare.
    PayloadTooLong,
    /// An opcode outside the known commands.
    UnknownOpcode { opcode: u16 },
    /// A status value outside the known statuses.
    UnknownStatus { status: u8 },
    /// The command completed with a status other than success.
    CommandError { opcode: ManagementCommand, status: ManagementCommandStatus },
    /// An event code that this engine does not decode.
    UnhandledEvent { code: u16 },
}

} // verus!
