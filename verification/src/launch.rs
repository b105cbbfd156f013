//! How the managed process is launched on each platform family.

use std::path::PathBuf;
use vstd::prelude::*;
use vstd::string::*;

verus! {

/// The platform families that differ in how a script runner found on the
/// executable search path has to be invoked.
#[derive(Clone, Copy, Debug, PartialEq, Eq, Structural)]
pub enum Platform {
    /// Windows: the runner is reached through the command shell.
    Windows,
    /// Every other platform: the runner is invoked directly.
    Other,
}

/// A program and the arguments it is started with.
#[derive(Debug, PartialEq, Eq)]
pub struct CommandLine {
    pub program: String,
    pub args: Vec<String>,
}

/// A command line as sequences of characters.
pub struct CommandLineView {
    pub program: Seq<char>,
    pub args: Seq<Seq<char>>,
}

impl View for CommandLine {
    type V = CommandLineView;

    open spec fn view(&self) -> CommandLineView {
        CommandLineView {
            program: self.program@,
            args: self.args@.map_values(|arg: String| arg@),
        }
    }
}

/// The command line that runs the managed project's `start` script:
/// `cmd /C npm start` on Windows, `npm start` elsewhere.
pub open spec fn script_runner_of(platform: Platform) -> CommandLineView {
    match platform {
        Platform::Windows => CommandLineView {
            program: "cmd"@,
            args: seq!["/C"@, "npm"@, "start"@],
        },
        Platform::Other => CommandLineView { program: "npm"@, args: seq!["start"@] },
    }
}

/// Builds the command line that runs the managed project's `start` script
/// on `platform`.
pub fn script_runner(platform: Platform) -> (command: CommandLine)
    ensures
        command@ == script_runner_of(platform),
{
    let mut args: Vec<String> = Vec::new();
    let program = match platform {
        Platform::Windows => {
            args.push(String::from_str("/C"));
            args.push(String::from_str("npm"));
            String::from_str("cmd")
        },
        Platform::Other => String::from_str("npm"),
    };
    args.push(String::from_str("start"));
    let command = CommandLine { program, args };
    assert(command@.args =~= script_runner_of(platform).args);
    command
}

/// Everything the host needs to launch the managed process: the command
/// line and the directory to run it in.
#[derive(Debug, PartialEq, Eq)]
pub struct LaunchPlan {
    pub command: CommandLine,
    pub directory: PathBuf,
}

/// A launch plan with its command line as sequences of characters.
pub struct LaunchPlanView {
    pub command: CommandLineView,
    pub directory: PathBuf,
}

impl View for LaunchPlan {
    type V = LaunchPlanView;

    open spec fn view(&self) -> LaunchPlanView {
        LaunchPlanView { command: self.command@, directory: self.directory }
    }
}

/// The plan that launches the managed process in `directory` on `platform`.
pub open spec fn launch_plan_of(platform: Platform, directory: PathBuf) -> LaunchPlanView {
    LaunchPlanView { command: script_runner_of(platform), directory }
}

/// Plans the launch of the managed process in `directory` on `platform`.
pub fn launch_plan(platform: Platform, directory: PathBuf) -> (plan: LaunchPlan)
    ensures
        plan@ == launch_plan_of(platform, directory),
{
    LaunchPlan { command: script_runner(platform), directory }
}

} // verus!
