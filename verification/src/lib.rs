use vstd::prelude::*;

pub mod cmd;
pub mod control;
mod error;
pub mod fmt;
pub mod icon;
pub mod state;
pub mod supervisor;
pub mod suppress;
pub mod text;
pub mod worker;

pub use cmd::{Args, RunArgs, SubCommand, UninstallArgs};
pub use error::ClipdError;
pub use icon::Icon;

verus! {

/// Well-known name under which the background service is registered.
pub const SERVICE_NAME: &'static str = "clipd";

} // verus!
