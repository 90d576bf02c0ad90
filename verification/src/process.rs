//! The commands that start and stop the daemon.
//!
//! Nothing here runs a process. Each function describes a command as plain
//! values: the program, its arguments and how it is to be run. The caller
//! hands that description to the operating system and reports what happened.

use crate::text::str_eq;
use crate::text::views;
use vstd::prelude::*;
use vstd::string::*;

verus! {

/// What the caller asks the daemon executable to do.
#[derive(Clone, Copy, Debug, PartialEq, Eq, Structural)]
pub enum LaunchMode {
    /// First-time setup.
    Initialize,
    /// Run as the long-lived signing daemon.
    RunDaemon,
    /// Add another account to an existing setup.
    AddAccount,
}

/// The host environment that an interactive start is prepared for.
#[derive(Clone, Copy, Debug, PartialEq, Eq, Structural)]
pub enum Platform {
    Linux,
    MacOs,
}

/// How a command is to be run.
#[derive(Clone, Copy, Debug, PartialEq, Eq, Structural)]
pub enum SpawnStyle {
    /// In a process group of its own and without standard streams, so that it
    /// outlives the caller's session.
    Detached,
    /// Started and left running; only the start itself can fail.
    Started,
    /// Run to its end; it fails where it cannot be started or exits with a
    /// failure status.
    Awaited,
}

/// A command, ready to be handed to the operating system.
#[derive(Clone, Debug, PartialEq, Eq)]
pub struct SpawnCommand {
    pub program: String,
    pub args: Vec<String>,
    pub style: SpawnStyle,
}

/// A command as plain text.
pub struct CommandView {
    pub program: Seq<char>,
    pub args: Seq<Seq<char>>,
    pub style: SpawnStyle,
}

impl View for SpawnCommand {
    type V = CommandView;

    open spec fn view(&self) -> CommandView {
        CommandView { program: self.program@, args: views(self.args@), style: self.style }
    }
}

/// The commands in `commands`, each as plain text.
pub open spec fn command_views(commands: Seq<SpawnCommand>) -> Seq<CommandView> {
    Seq::new(commands.len(), |i: int| commands[i]@)
}

/// The mode that the text `s` names, if it names one.
pub open spec fn mode_of(s: Seq<char>) -> Option<LaunchMode> {
    if s == "init"@ {
        Some(LaunchMode::Initialize)
    } else if s == "daemon"@ {
        Some(LaunchMode::RunDaemon)
    } else if s == "add-account"@ {
        Some(LaunchMode::AddAccount)
    } else {
        None
    }
}

/// The subcommand that the daemon executable takes for `mode`.
pub open spec fn subcommand_of(mode: LaunchMode) -> Seq<char> {
    match mode {
        LaunchMode::Initialize => "init"@,
        LaunchMode::RunDaemon => "daemon"@,
        LaunchMode::AddAccount => "add-account"@,
    }
}

/// The name of a mode's subcommand names that mode again.
pub proof fn lemma_mode_round_trip(mode: LaunchMode)
    ensures
        mode_of(subcommand_of(mode)) == Some(mode),
{
    reveal_strlit("init");
    reveal_strlit("daemon");
    reveal_strlit("add-account");
    assert("init"@.len() == 4);
    assert("daemon"@.len() == 6);
}

/// A text names a mode only if it is that mode's subcommand, letter for
/// letter.
pub proof fn lemma_mode_of_exact(s: Seq<char>)
    ensures
        match mode_of(s) {
            Some(mode) => s == subcommand_of(mode),
            None => forall|mode: LaunchMode| s != subcommand_of(mode),
        },
{
    reveal_strlit("init");
    reveal_strlit("daemon");
    reveal_strlit("add-account");
}

impl LaunchMode {
    /// Reads a mode from the name of its subcommand.
    pub fn parse(mode: &str) -> (parsed: Option<LaunchMode>)
        ensures
            parsed == mode_of(mode@),
    {
        if str_eq(mode, "init") {
            Some(LaunchMode::Initialize)
        } else if str_eq(mode, "daemon") {
            Some(LaunchMode::RunDaemon)
        } else if str_eq(mode, "add-account") {
            Some(LaunchMode::AddAccount)
        } else {
            None
        }
    }

    /// The subcommand that the daemon executable takes for this mode.
    pub fn subcommand(&self) -> (name: &'static str)
        ensures
            name@ == subcommand_of(*self),
    {
        match self {
            LaunchMode::Initialize => "init",
            LaunchMode::RunDaemon => "daemon",
            LaunchMode::AddAccount => "add-account",
        }
    }
}

/// The daemon executable and its subcommand on one line, as a terminal is
/// asked to run them.
pub open spec fn command_line(binary: Seq<char>, mode: LaunchMode) -> Seq<char> {
    binary + " "@ + subcommand_of(mode)
}

/// The script that asks the macOS terminal application to run `line`.
pub open spec fn terminal_script(line: Seq<char>) -> Seq<char> {
    "tell application \"Terminal\"\nactivate\ndo script \""@ + line + "\"\nend tell"@
}

/// The silent start: the daemon executable itself, detached from the
/// caller's session.
pub open spec fn background_view(binary: Seq<char>, mode: LaunchMode) -> CommandView {
    CommandView { program: binary, args: seq![subcommand_of(mode)], style: SpawnStyle::Detached }
}

/// The terminal emulators that an interactive start tries, in order of
/// preference.
pub open spec fn interactive_views(platform: Platform, binary: Seq<char>, mode: LaunchMode) -> Seq<
    CommandView,
> {
    match platform {
        Platform::Linux => seq![
            CommandView {
                program: "gnome-terminal"@,
                args: seq!["--"@, binary, subcommand_of(mode)],
                style: SpawnStyle::Started,
            },
            CommandView {
                program: "konsole"@,
                args: seq!["-e"@, command_line(binary, mode)],
                style: SpawnStyle::Started,
            },
            CommandView {
                program: "xterm"@,
                args: seq!["-e"@, command_line(binary, mode)],
                style: SpawnStyle::Started,
            },
        ],
        Platform::MacOs => seq![
            CommandView {
                program: "osascript"@,
                args: seq!["-e"@, terminal_script(command_line(binary, mode))],
                style: SpawnStyle::Awaited,
            },
        ],
    }
}

/// How many terminal emulators an interactive start can try on `platform`.
pub open spec fn terminal_count(platform: Platform) -> nat {
    match platform {
        Platform::Linux => 3,
        Platform::MacOs => 1,
    }
}

/// The pattern that selects the processes to terminate: the executable's
/// name, followed anywhere later on the command line by the daemon
/// subcommand, and by no other subcommand.
pub open spec fn kill_pattern() -> Seq<char> {
    "noorsigner"@ + ".*"@ + subcommand_of(LaunchMode::RunDaemon)
}

/// The command that terminates every running daemon.
pub open spec fn kill_view() -> CommandView {
    CommandView {
        program: "pkill"@,
        args: seq!["-f"@, kill_pattern()],
        style: SpawnStyle::Awaited,
    }
}

/// Every platform offers at least one terminal emulator, and the list of
/// interactive commands has one entry for each.
pub proof fn lemma_terminal_count(platform: Platform, binary: Seq<char>, mode: LaunchMode)
    ensures
        terminal_count(platform) > 0,
        interactive_views(platform, binary, mode).len() == terminal_count(platform),
{
}

/// The termination pattern, letter for letter.
pub proof fn lemma_kill_pattern_text()
    ensures
        kill_pattern() == "noorsigner.*daemon"@,
{
    reveal_strlit("noorsigner.*daemon");
    reveal_strlit("noorsigner");
    reveal_strlit(".*");
    reveal_strlit("daemon");
}

/// The daemon executable and its subcommand on one line.
fn command_line_text(binary: &str, mode: LaunchMode) -> (line: String)
    ensures
        line@ == command_line(binary@, mode),
{
    let mut line = String::from_str(binary);
    line.append(" ");
    line.append(mode.subcommand());
    line
}

/// The command for a silent start of `binary` in `mode`.
pub fn background_command(binary: &str, mode: LaunchMode) -> (command: SpawnCommand)
    ensures
        command@ == background_view(binary@, mode),
{
    let mut args: Vec<String> = Vec::new();
    args.push(String::from_str(mode.subcommand()));
    let command = SpawnCommand {
        program: String::from_str(binary),
        args,
        style: SpawnStyle::Detached,
    };
    assert(command@.args =~= seq![subcommand_of(mode)]);
    command
}

/// A command that hands `payload` to `program` behind the flag `-e`.
fn execute_flag_command(program: &str, payload: String, style: SpawnStyle) -> (command:
    SpawnCommand)
    ensures
        command@ == (CommandView { program: program@, args: seq!["-e"@, payload@], style }),
{
    let mut args: Vec<String> = Vec::new();
    args.push(String::from_str("-e"));
    args.push(payload);
    let command = SpawnCommand { program: String::from_str(program), args, style };
    assert(command@.args =~= seq!["-e"@, payload@]);
    command
}

/// The commands for an interactive start of `binary` in `mode`, in the order
/// in which they are to be tried.
pub fn interactive_commands(platform: Platform, binary: &str, mode: LaunchMode) -> (commands: Vec<
    SpawnCommand,
>)
    ensures
        command_views(commands@) == interactive_views(platform, binary@, mode),
{
    let mut commands: Vec<SpawnCommand> = Vec::new();
    match platform {
        Platform::Linux => {
            let mut args: Vec<String> = Vec::new();
            args.push(String::from_str("--"));
            args.push(String::from_str(binary));
            args.push(String::from_str(mode.subcommand()));
            let gnome = SpawnCommand {
                program: String::from_str("gnome-terminal"),
                args,
                style: SpawnStyle::Started,
            };
            assert(gnome@.args =~= seq!["--"@, binary@, subcommand_of(mode)]);
            let konsole = execute_flag_command(
                "konsole",
                command_line_text(binary, mode),
                SpawnStyle::Started,
            );
            let xterm = execute_flag_command(
                "xterm",
                command_line_text(binary, mode),
                SpawnStyle::Started,
            );
            commands.push(gnome);
            commands.push(konsole);
            commands.push(xterm);
        },
        Platform::MacOs => {
            let line = command_line_text(binary, mode);
            let mut script = String::from_str(
                "tell application \"Terminal\"\nactivate\ndo script \"",
            );
            script.append(line.as_str());
            script.append("\"\nend tell");
            let osascript = execute_flag_command("osascript", script, SpawnStyle::Awaited);
            commands.push(osascript);
        },
    }
    commands
}

/// The command that terminates every running daemon, and nothing that was
/// started with another subcommand.
pub fn kill_command() -> (command: SpawnCommand)
    ensures
        command@ == kill_view(),
{
    let mut pattern = String::from_str("noorsigner");
    pattern.append(".*");
    pattern.append(LaunchMode::RunDaemon.subcommand());
    let mut args: Vec<String> = Vec::new();
    args.push(String::from_str("-f"));
    args.push(pattern);
    let command = SpawnCommand {
        program: String::from_str("pkill"),
        args,
        style: SpawnStyle::Awaited,
    };
    assert(command@.args =~= seq!["-f"@, kill_pattern()]);
    command
}

/// The error for a kill command that could not be run, for the reason
/// `cause`.
pub open spec fn cancel_failure(cause: Seq<char>) -> Seq<char> {
    "Failed to kill noorsigner process: "@ + cause
}

/// Reports a termination request, given how the kill command ended.
///
/// `ran` is `Ok(matched)` where the command ran, with `matched` telling
/// whether it found a daemon to terminate, and `Err(cause)` where it could
/// not be run at all. Finding no daemon is a success like any other: the
/// result then is `Ok(false)`. Only a kill command that could not be run is
/// an error.
pub fn cancel_key_signer_launch(ran: Result<bool, String>) -> (result: Result<bool, String>)
    ensures
        match ran {
            Ok(matched) => result matches Ok(terminated) && terminated == matched,
            Err(cause) => result matches Err(message) && message@ == cancel_failure(cause@),
        },
{
    match ran {
        Ok(matched) => Ok(matched),
        Err(cause) => {
            let mut message = String::from_str("Failed to kill noorsigner process: ");
            message.append(cause.as_str());
            Err(message)
        },
    }
}

} // verus!
