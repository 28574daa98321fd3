use vstd::prelude::*;

use vstd::string::StringExecFns;

verus! {

/// Parsed command line: an optional subcommand and the version flag.
#[derive(Clone, Debug, PartialEq, Eq, Structural)]
pub struct Args {
    pub sub: Option<SubCommand>,
    pub version: bool,
}

/// The lifecycle subcommands of the command line.
#[derive(Clone, Copy, Debug, PartialEq, Eq, Structural)]
pub enum SubCommand {
    Install,
    Run(RunArgs),
    Start,
    Pause,
    Resume,
    Stop,
    Restart,
    Status,
    Uninstall(UninstallArgs),
}

/// Arguments of the `run` subcommand.
#[derive(Clone, Copy, Debug, PartialEq, Eq, Structural)]
pub struct RunArgs {
    /// Run as the service-managed daemon rather than standalone.
    pub daemon: bool,
}

/// Arguments of the `uninstall` subcommand.
#[derive(Clone, Copy, Debug, PartialEq, Eq, Structural)]
pub struct UninstallArgs {
    /// Seconds to wait for the service record to leave the OS registry.
    pub timeout: u64,
}

/// A bare invocation runs the worker standalone: no subcommand means
/// `Run { daemon: false }`.
pub fn effective_subcommand(sub: Option<SubCommand>) -> (r: SubCommand)
    ensures
        r == match sub {
            Some(s) => s,
            None => SubCommand::Run(RunArgs { daemon: false }),
        },
{
    match sub {
        Some(s) => s,
        None => SubCommand::Run(RunArgs { daemon: false }),
    }
}

/// The launch arguments an installed service record carries: the installed
/// executable is started as the service-managed daemon.
pub fn install_arguments() -> (r: Vec<String>)
    ensures
        r@.len() == 2,
        r@[0]@ == "run"@,
        r@[1]@ == "--daemon"@,
{
    let mut v: Vec<String> = Vec::new();
    v.push(String::from_str("run"));
    v.push(String::from_str("--daemon"));
    v
}

} // verus!
