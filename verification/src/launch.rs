//! What to launch: the interpreter of the backend's environment, the script
//! that serves, and the flag that makes the backend print its port as the
//! first line of its standard output.

use vstd::prelude::*;
use vstd::string::*;

verus! {

/// The pieces of the backend's command line. The paths are relative to the
/// root of the backend's environment, which is also its working directory.
#[derive(Debug, PartialEq, Eq)]
pub struct LaunchPlan {
    /// The interpreter, relative to the environment's root.
    pub interpreter: String,
    /// The script to run, relative to the environment's root.
    pub script: String,
    /// The flag that asks for the port on the first line of output.
    pub flag: String,
}

/// The backend could not be started: the executable is missing, may not be
/// run, or the system refused another process.
#[derive(Debug, PartialEq, Eq)]
pub struct LaunchError {
    /// What the operating system said.
    pub reason: String,
}

/// The text of a failed launch for the host's log.
pub open spec fn launch_failure_text(error: LaunchError) -> Seq<char> {
    "Failed to start API server: "@ + error.reason@
}

impl LaunchError {
    /// The error as text for the host's log.
    pub fn message(&self) -> (text: String)
        ensures
            text@ == launch_failure_text(*self),
    {
        let mut text = String::from_str("Failed to start API server: ");
        text.append(self.reason.as_str());
        text
    }
}

/// Where the interpreter lies under the environment's root.
pub open spec fn interpreter_path(windows: bool) -> Seq<char> {
    if windows {
        "Scripts/python"@
    } else {
        "bin/python"@
    }
}

/// The script that serves.
pub open spec fn script_name() -> Seq<char> {
    "api.py"@
}

/// The flag of the handshake.
pub open spec fn handshake_flag() -> Seq<char> {
    "--direct-output"@
}

/// The command line of the backend on this kind of system.
pub fn launch_plan(windows: bool) -> (plan: LaunchPlan)
    ensures
        plan.interpreter@ == interpreter_path(windows),
        plan.script@ == script_name(),
        plan.flag@ == handshake_flag(),
{
    let interpreter = if windows {
        String::from_str("Scripts/python")
    } else {
        String::from_str("bin/python")
    };
    LaunchPlan {
        interpreter,
        script: String::from_str("api.py"),
        flag: String::from_str("--direct-output"),
    }
}

} // verus!
