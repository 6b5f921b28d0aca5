//! What the installer decides and reports: the summary of a run over the
//! supported MCP clients and the choices of its menu. Locating and writing
//! the files is the caller's business.

use vstd::prelude::*;
use vstd::string::StringExecFns;

verus! {

/// What precedes the list of clients in the closing message.
pub const MESSAGE_HEAD: &'static str =
    "Roblox Studio MCP is ready to go.\nPlease restart Studio and MCP clients to apply the changes.\n\nMCP Clients set up:\n";

/// What follows the list of clients in the closing message.
pub const MESSAGE_TAIL: &'static str =
    "\n\nNote: connecting a third-party LLM to Roblox Studio via an MCP server will share your data with that external service provider. Please review their privacy practices carefully before proceeding.\nTo uninstall, delete the MCPStudioPlugin.rbxm from your Plugins directory.";

/// The headline of a run that set up no client at all.
pub const NO_CLIENT_HEADLINE: &'static str = "Failed to install to any supported MCP clients";

/// The closing message of a run that set up the clients listed in
/// `successes`.
pub open spec fn message_text(successes: Seq<char>) -> Seq<char> {
    MESSAGE_HEAD@ + successes + MESSAGE_TAIL@
}

/// The names of the clients that were set up, in the order of the run.
pub open spec fn successes_of(results: Seq<Result<String, String>>) -> Seq<String>
    decreases results.len(),
{
    if results.len() == 0 {
        Seq::empty()
    } else {
        match results.last() {
            Ok(name) => successes_of(results.drop_last()).push(name),
            Err(_) => successes_of(results.drop_last()),
        }
    }
}

/// The errors of the clients that could not be set up, in the order of the
/// run.
pub open spec fn failures_of(results: Seq<Result<String, String>>) -> Seq<String>
    decreases results.len(),
{
    if results.len() == 0 {
        Seq::empty()
    } else {
        match results.last() {
            Ok(_) => failures_of(results.drop_last()),
            Err(error) => failures_of(results.drop_last()).push(error),
        }
    }
}

/// The lines joined by line feeds, with none after the last.
pub open spec fn joined(lines: Seq<String>) -> Seq<char>
    decreases lines.len(),
{
    if lines.len() == 0 {
        Seq::empty()
    } else if lines.len() == 1 {
        lines[0]@
    } else {
        joined(lines.drop_last()) + seq!['\n'] + lines.last()@
    }
}

/// The closing message of the installer.
pub fn get_message(successes: String) -> (message: String)
    ensures
        message@ == message_text(successes@),
{
    String::from_str(MESSAGE_HEAD).concat(successes.as_str()).concat(MESSAGE_TAIL)
}

/// Joins the lines by line feeds.
pub fn join_lines(lines: &Vec<String>) -> (text: String)
    ensures
        text@ == joined(lines@),
{
    let mut text = String::new();
    let mut i: usize = 0;
    while i < lines.len()
        invariant
            i <= lines.len(),
            text@ == joined(lines@.take(i as int)),
        decreases lines.len() - i,
    {
        proof {
            reveal_strlit("\n");
            assert(lines@.take(i + 1).drop_last() =~= lines@.take(i as int));
            assert("\n"@ =~= seq!['\n']);
        }
        if i > 0 {
            text.append("\n");
        }
        text.append(lines[i].as_str());
        assert(text@ =~= joined(lines@.take(i + 1)));
        i = i + 1;
    }
    assert(lines@.take(lines.len() as int) =~= lines@);
    text
}

/// A run of the installer that set up no client.
#[derive(Clone, Debug, PartialEq, Eq)]
pub struct InstallFailure {
    /// The error of each client, in the order of the run.
    pub notes: Vec<String>,
}

impl InstallFailure {
    /// The headline under which the notes are reported.
    pub fn headline(&self) -> (text: String)
        ensures
            text@ == NO_CLIENT_HEADLINE@,
    {
        String::from_str(NO_CLIENT_HEADLINE)
    }
}

/// Sums up a run over the supported clients. The run succeeded if at least
/// one client was set up, and its message lists those clients, one per
/// line; otherwise it failed, and the failure carries every error.
pub fn install_summary(results: &Vec<Result<String, String>>) -> (summary: Result<
    String,
    InstallFailure,
>)
    ensures
        successes_of(results@).len() > 0 ==> (summary matches Ok(message) && message@
            == message_text(joined(successes_of(results@)))),
        successes_of(results@).len() == 0 ==> (summary matches Err(failure) && failure.notes@
            == failures_of(results@)),
{
    let mut successes: Vec<String> = Vec::new();
    let mut errors: Vec<String> = Vec::new();
    let mut i: usize = 0;
    while i < results.len()
        invariant
            i <= results.len(),
            successes@ == successes_of(results@.take(i as int)),
            errors@ == failures_of(results@.take(i as int)),
        decreases results.len() - i,
    {
        proof {
            assert(results@.take(i + 1).drop_last() =~= results@.take(i as int));
        }
        match &results[i] {
            Ok(name) => successes.push(name.clone()),
            Err(error) => errors.push(error.clone()),
        }
        i = i + 1;
    }
    assert(results@.take(results.len() as int) =~= results@);
    if successes.len() == 0 {
        Err(InstallFailure { notes: errors })
    } else {
        Ok(get_message(join_lines(&successes)))
    }
}

/// An entry of the installer's menu: the plugin first, then one entry for
/// each supported client, then the way out.
#[derive(Clone, Copy, Debug, PartialEq, Eq)]
pub enum MenuChoice {
    /// Install or update the Studio plugin.
    InstallPlugin,
    /// Install or update the connection of the client at this position of
    /// the list of supported clients.
    InstallClient(usize),
    /// Leave the installer.
    Exit,
}

/// The entry at a position of a menu over `clients` supported clients.
pub open spec fn entry_at(index: int, clients: int) -> Option<MenuChoice> {
    if index == 0 {
        Some(MenuChoice::InstallPlugin)
    } else if 1 <= index <= clients {
        Some(MenuChoice::InstallClient((index - 1) as usize))
    } else if index == clients + 1 {
        Some(MenuChoice::Exit)
    } else {
        None
    }
}

/// The number of entries of a menu over `clients` supported clients.
pub open spec fn menu_len(clients: int) -> int {
    clients + 2
}

/// What one round of the menu reports for a task.
pub open spec fn report_text(label: Seq<char>, outcome: Result<(), String>) -> Seq<char> {
    match outcome {
        Ok(_) => label + " completed successfully.\n"@,
        Err(error) => label + " failed: "@ + error@,
    }
}

/// The entry that the user picked in a menu over `clients` supported
/// clients. Leaving the prompt without a pick exits; a position outside the
/// menu is no entry.
pub fn menu_choice(selection: Option<usize>, clients: usize) -> (choice: Option<MenuChoice>)
    ensures
        selection is None ==> choice == Some(MenuChoice::Exit),
        selection matches Some(index) ==> choice == entry_at(index as int, clients as int),
        choice matches Some(MenuChoice::InstallClient(position)) ==> position < clients,
{
    match selection {
        None => Some(MenuChoice::Exit),
        Some(index) => if index == 0 {
            Some(MenuChoice::InstallPlugin)
        } else if index - 1 < clients {
            Some(MenuChoice::InstallClient(index - 1))
        } else if index - 1 == clients {
            Some(MenuChoice::Exit)
        } else {
            None
        },
    }
}

/// The position at which a menu over `clients` supported clients shows an
/// entry; none for a client that the list does not hold.
pub fn menu_index(choice: MenuChoice, clients: usize) -> (index: Option<usize>)
    requires
        clients <= usize::MAX - 2,
    ensures
        index matches Some(position) ==> position < menu_len(clients as int) && entry_at(
            position as int,
            clients as int,
        ) == Some(choice),
        index is None <==> (choice matches MenuChoice::InstallClient(position) && position
            >= clients),
{
    match choice {
        MenuChoice::InstallPlugin => Some(0),
        MenuChoice::InstallClient(position) => if position < clients {
            Some(position + 1)
        } else {
            None
        },
        MenuChoice::Exit => Some(clients + 1),
    }
}

/// The line that the menu prints after a task, given how the task ended.
pub fn task_report(label: &str, outcome: &Result<(), String>) -> (line: String)
    ensures
        line@ == report_text(label@, *outcome),
{
    match outcome {
        Ok(_) => String::from_str(label).concat(" completed successfully.\n"),
        Err(error) => String::from_str(label).concat(" failed: ").concat(error.as_str()),
    }
}

} // verus!
