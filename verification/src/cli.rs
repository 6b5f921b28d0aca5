//! The process command surface: which of the bridge and the installer a
//! command line starts.

use vstd::prelude::*;

verus! {

/// A subcommand of the process.
#[derive(Clone, Copy, Debug, PartialEq, Eq)]
pub enum Command {
    /// Run the bridge on standard input/output.
    Server,
    /// Launch the interactive installer.
    StudioInstall,
}

/// What the process does.
#[derive(Clone, Copy, Debug, PartialEq, Eq)]
pub enum Action {
    /// Run the bridge.
    RunServer,
    /// Launch the interactive installer.
    StudioInstall,
    /// Install the plugin and the client configurations without asking.
    Install,
}

/// The command that a command line selects: the legacy installer flag wins
/// over the legacy stdio flag, and either wins over a subcommand.
pub open spec fn selected(
    legacy_studio_install: bool,
    legacy_stdio: bool,
    command: Option<Command>,
) -> Option<Command> {
    if legacy_studio_install {
        Some(Command::StudioInstall)
    } else if legacy_stdio {
        Some(Command::Server)
    } else {
        command
    }
}

/// What the process does for a selected command; without one it installs.
pub open spec fn action_of(command: Option<Command>) -> Action {
    match command {
        Some(Command::Server) => Action::RunServer,
        Some(Command::StudioInstall) => Action::StudioInstall,
        None => Action::Install,
    }
}

/// Resolves the legacy flags and the subcommand to one command.
pub fn select_command(
    legacy_studio_install: bool,
    legacy_stdio: bool,
    command: Option<Command>,
) -> (chosen: Option<Command>)
    ensures
        chosen == selected(legacy_studio_install, legacy_stdio, command),
{
    if legacy_studio_install {
        Some(Command::StudioInstall)
    } else if legacy_stdio {
        Some(Command::Server)
    } else {
        command
    }
}

/// What the process does for a command line.
pub fn action_for(
    legacy_studio_install: bool,
    legacy_stdio: bool,
    command: Option<Command>,
) -> (action: Action)
    ensures
        action == action_of(selected(legacy_studio_install, legacy_stdio, command)),
{
    match select_command(legacy_studio_install, legacy_stdio, command) {
        Some(Command::Server) => Action::RunServer,
        Some(Command::StudioInstall) => Action::StudioInstall,
        None => Action::Install,
    }
}

} // verus!
