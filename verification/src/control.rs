use vstd::prelude::*;

use crate::error::ClipdError;

verus! {

/// Wire byte ordering the worker to pause.
pub const MESSAGE_PAUSE: u8 = 0x50;

/// Wire byte ordering the worker to resume.
pub const MESSAGE_RESUME: u8 = 0x52;

/// Wire byte ordering the worker to exit.
pub const MESSAGE_EXIT: u8 = 0x44;

/// A command of the control channel between the service and the session
/// worker. Each command travels as a single byte; there is no payload and no
/// acknowledgment.
#[derive(Clone, Copy, Debug, PartialEq, Eq, Structural)]
pub enum ControlCommand {
    Pause,
    Resume,
    Exit,
}

impl ControlCommand {
    pub open spec fn spec_encode(self) -> u8 {
        match self {
            ControlCommand::Pause => MESSAGE_PAUSE,
            ControlCommand::Resume => MESSAGE_RESUME,
            ControlCommand::Exit => MESSAGE_EXIT,
        }
    }

    /// The command a received byte stands for, or the unknown byte itself.
    pub open spec fn spec_decode(byte: u8) -> Result<ControlCommand, ClipdError> {
        if byte == MESSAGE_PAUSE {
            Ok(ControlCommand::Pause)
        } else if byte == MESSAGE_RESUME {
            Ok(ControlCommand::Resume)
        } else if byte == MESSAGE_EXIT {
            Ok(ControlCommand::Exit)
        } else {
            Err(ClipdError::UnknownCommandByte(byte))
        }
    }

    /// The byte that carries this command on the wire.
    pub fn encode(self) -> (b: u8)
        ensures
            b == self.spec_encode(),
    {
        match self {
            ControlCommand::Pause => MESSAGE_PAUSE,
            ControlCommand::Resume => MESSAGE_RESUME,
            ControlCommand::Exit => MESSAGE_EXIT,
        }
    }

    /// Decodes one received byte. A byte outside the protocol is reported as
    /// a decode error and does not tear the channel down.
    pub fn decode(byte: u8) -> (r: Result<ControlCommand, ClipdError>)
        ensures
            r == ControlCommand::spec_decode(byte),
    {
        if byte == MESSAGE_PAUSE {
            Ok(ControlCommand::Pause)
        } else if byte == MESSAGE_RESUME {
            Ok(ControlCommand::Resume)
        } else if byte == MESSAGE_EXIT {
            Ok(ControlCommand::Exit)
        } else {
            Err(ClipdError::UnknownCommandByte(byte))
        }
    }
}

/// Decoding inverts encoding: every command survives the wire unchanged.
pub proof fn lemma_control_round_trip(c: ControlCommand)
    ensures
        ControlCommand::spec_decode(c.spec_encode()) == Ok::<ControlCommand, ClipdError>(c),
{
}

/// How the worker was started. At startup the worker probes the well-known
/// control channel address with zero wait: when the channel exists it is
/// service-managed, otherwise it runs standalone and takes the instance lock
/// itself.
#[derive(Clone, Copy, Debug, PartialEq, Eq, Structural)]
pub enum StartupMode {
    ServiceManaged,
    Standalone,
}

/// Judges the attempt to take the named OS-wide instance lock: a lock that
/// already exists means another worker or service of this identity is active,
/// and this instance must not run.
pub fn acquire_instance_lock(already_exists: bool) -> (r: Result<(), ClipdError>)
    ensures
        already_exists <==> r is Err,
        r is Err ==> r->Err_0 == ClipdError::AlreadyRunning,
{
    if already_exists {
        Err(ClipdError::AlreadyRunning)
    } else {
        Ok(())
    }
}

/// The startup mode implied by the control-channel probe.
pub fn startup_mode(control_channel_found: bool) -> (r: StartupMode)
    ensures
        r == (if control_channel_found {
            StartupMode::ServiceManaged
        } else {
            StartupMode::Standalone
        }),
{
    if control_channel_found {
        StartupMode::ServiceManaged
    } else {
        StartupMode::Standalone
    }
}

} // verus!
