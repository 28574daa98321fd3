use vstd::prelude::*;

verus! {

/// Failure taxonomy of the library.
///
/// Normalization rejects an empty rule set (`EmptyFeatureSet`) and an empty
/// raw text buffer (`EmptyInput`); the control channel rejects bytes outside
/// the wire protocol (`UnknownCommandByte`); the service supervisor rejects
/// lifecycle operations issued in the wrong state (`InvalidStateForOperation`,
/// `NotInstalled`, `AlreadyInstalled`) and reports a bounded wait that ran out
/// (`WaitTimeout`).
#[derive(Clone, Copy, Debug, PartialEq, Eq, Structural)]
pub enum ClipdError {
    EmptyFeatureSet,
    UnsupportedFeature,
    EmptyInput,
    UnknownCommandByte(u8),
    InvalidStateForOperation,
    NotInstalled,
    AlreadyInstalled,
    AlreadyRunning,
    WaitTimeout,
}

impl ClipdError {
    /// A short description, in place of a `Display` implementation.
    pub fn message(&self) -> (r: &'static str)
        ensures
            r@ == match self {
                ClipdError::EmptyFeatureSet => "format feature set is empty"@,
                ClipdError::UnsupportedFeature => "format feature set holds an unsupported rule"@,
                ClipdError::EmptyInput => "input text is empty"@,
                ClipdError::UnknownCommandByte(_) => "unknown control command byte"@,
                ClipdError::InvalidStateForOperation => "service state does not allow this operation"@,
                ClipdError::NotInstalled => "service is not installed"@,
                ClipdError::AlreadyInstalled => "service is already installed"@,
                ClipdError::AlreadyRunning => "another instance is already running"@,
                ClipdError::WaitTimeout => "timed out waiting for the service state"@,
            },
    {
        match self {
            ClipdError::EmptyFeatureSet => "format feature set is empty",
            ClipdError::UnsupportedFeature => "format feature set holds an unsupported rule",
            ClipdError::EmptyInput => "input text is empty",
            ClipdError::UnknownCommandByte(_) => "unknown control command byte",
            ClipdError::InvalidStateForOperation => "service state does not allow this operation",
            ClipdError::NotInstalled => "service is not installed",
            ClipdError::AlreadyInstalled => "service is already installed",
            ClipdError::AlreadyRunning => "another instance is already running",
            ClipdError::WaitTimeout => "timed out waiting for the service state",
        }
    }
}

} // verus!
