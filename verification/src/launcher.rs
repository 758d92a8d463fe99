//! Dispatch of a finished artifact to the platform: opening it, revealing it
//! in the file manager, and the one platform's native install step. The
//! component decides which external command to run and what its exit means;
//! spawning the command is the caller's work.

use vstd::prelude::*;
use vstd::string::StringExecFns;
use crate::errors::LaunchError;

verus! {

/// The host operating system, detected once at startup.
#[derive(Debug, Clone, Copy, PartialEq, Eq, Structural)]
pub enum Platform {
    MacOs,
    Windows,
    Linux,
}

/// What to do with the artifact.
#[derive(Debug, Clone, Copy, PartialEq, Eq, Structural)]
pub enum LaunchAction {
    /// Hand the file to its native association.
    Open,
    /// Show the file in the platform's file manager.
    Reveal,
    /// Mount and present the installer; defined on macOS only.
    Install,
}

/// An external command to run: a program and its arguments.
#[derive(Debug, PartialEq, Eq)]
pub struct CommandSpec {
    pub program: String,
    pub args: Vec<String>,
}

/// `c` runs `prog` with the single argument `a0`.
pub open spec fn is_cmd1(c: CommandSpec, prog: Seq<char>, a0: Seq<char>) -> bool {
    &&& c.program@ == prog
    &&& c.args@.len() == 1
    &&& c.args@[0]@ == a0
}

/// `c` runs `prog` with the two arguments `a0` and `a1`.
pub open spec fn is_cmd2(c: CommandSpec, prog: Seq<char>, a0: Seq<char>, a1: Seq<char>) -> bool {
    &&& c.program@ == prog
    &&& c.args@.len() == 2
    &&& c.args@[0]@ == a0
    &&& c.args@[1]@ == a1
}

/// Chooses the platform command for an action on an artifact. The caller
/// says whether the artifact exists; an absent artifact is refused before
/// anything is dispatched, and the install action exists only on macOS.
/// The bindings are fixed: open is the native `open` / `explorer` /
/// `xdg-open`, reveal is `open -R` / `explorer /select,` /
/// `nautilus --select`, and install opens the disk image on macOS.
pub fn launch_command(platform: Platform, action: LaunchAction, path: String, path_exists: bool) -> (r:
    Result<CommandSpec, LaunchError>)
    ensures
        !path_exists ==> (r matches Err(e) && e == LaunchError::ArtifactNotFound(path)),
        path_exists ==> match action {
            LaunchAction::Open => match platform {
                Platform::MacOs => r matches Ok(c) && is_cmd1(c, "open"@, path@),
                Platform::Windows => r matches Ok(c) && is_cmd1(c, "explorer"@, path@),
                Platform::Linux => r matches Ok(c) && is_cmd1(c, "xdg-open"@, path@),
            },
            LaunchAction::Reveal => match platform {
                Platform::MacOs => r matches Ok(c) && is_cmd2(c, "open"@, "-R"@, path@),
                Platform::Windows => r matches Ok(c) && is_cmd2(c, "explorer"@, "/select,"@, path@),
                Platform::Linux => r matches Ok(c) && is_cmd2(c, "nautilus"@, "--select"@, path@),
            },
            LaunchAction::Install => match platform {
                Platform::MacOs => r matches Ok(c) && is_cmd1(c, "open"@, path@),
                Platform::Windows => r matches Err(e) && e == LaunchError::UnsupportedOperation,
                Platform::Linux => r matches Err(e) && e == LaunchError::UnsupportedOperation,
            },
        },
{
    if !path_exists {
        return Err(LaunchError::ArtifactNotFound(path));
    }
    match action {
        LaunchAction::Open => {
            let program = match platform {
                Platform::MacOs => String::from_str("open"),
                Platform::Windows => String::from_str("explorer"),
                Platform::Linux => String::from_str("xdg-open"),
            };
            let mut args: Vec<String> = Vec::new();
            args.push(path);
            Ok(CommandSpec { program, args })
        },
        LaunchAction::Reveal => {
            let (program, flag) = match platform {
                Platform::MacOs => (String::from_str("open"), String::from_str("-R")),
                Platform::Windows => (String::from_str("explorer"), String::from_str("/select,")),
                Platform::Linux => (String::from_str("nautilus"), String::from_str("--select")),
            };
            let mut args: Vec<String> = Vec::new();
            args.push(flag);
            args.push(path);
            Ok(CommandSpec { program, args })
        },
        LaunchAction::Install => match platform {
            Platform::MacOs => {
                let program = String::from_str("open");
                let mut args: Vec<String> = Vec::new();
                args.push(path);
                Ok(CommandSpec { program, args })
            },
            Platform::Windows => Err(LaunchError::UnsupportedOperation),
            Platform::Linux => Err(LaunchError::UnsupportedOperation),
        },
    }
}

/// The message a successful action answers with.
pub open spec fn success_message_spec(action: LaunchAction, path: Seq<char>) -> Seq<char> {
    match action {
        LaunchAction::Open => "Successfully opened: "@ + path,
        LaunchAction::Reveal => "Successfully revealed: "@ + path,
        LaunchAction::Install => "Installer opened successfully. Follow the installer instructions to complete the update."@,
    }
}

/// Judges what the dispatched command's exit meant: a success answers with
/// the action's message, a failure surfaces the command's error output.
pub fn launch_outcome(action: LaunchAction, path: &str, exit_success: bool, stderr: String) -> (r:
    Result<String, LaunchError>)
    ensures
        exit_success ==> (r matches Ok(m) && m@ == success_message_spec(action, path@)),
        !exit_success ==> (r matches Err(e) && e == LaunchError::Subprocess(stderr)),
{
    if exit_success {
        match action {
            LaunchAction::Open => Ok(String::from_str("Successfully opened: ").concat(path)),
            LaunchAction::Reveal => Ok(String::from_str("Successfully revealed: ").concat(path)),
            LaunchAction::Install => Ok(
                String::from_str(
                    "Installer opened successfully. Follow the installer instructions to complete the update.",
                ),
            ),
        }
    } else {
        Err(LaunchError::Subprocess(stderr))
    }
}

} // verus!
