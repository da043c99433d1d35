//! What the command line asks for.

use vstd::prelude::*;
use vstd::slice::slice_subrange;
use crate::config::{
    config_location, config_relative_path, Config, ConfigView, APP_NAME, APP_VERSION,
};
use crate::text::{join_texts, same_text};

verus! {

/// The argument that asks for the version.
pub const VERSION_FLAG: &'static str = "--version";

/// The argument that asks for a configuration file to be written.
pub const SETUP_FLAG: &'static str = "--setup";

/// What `--setup` asks for.
#[derive(Clone, Debug, PartialEq, Eq)]
pub enum SetupRequest {
    /// No values were given: write the default configuration.
    Defaults,
    /// Write this configuration.
    Custom(Config),
    /// An editor was given, but no notes folder.
    MissingNotesFolder,
    /// An editor and a notes folder were given, but no repository.
    MissingRepoPath,
}

/// A `SetupRequest` as plain values.
pub enum SetupRequestView {
    Defaults,
    Custom(ConfigView),
    MissingNotesFolder,
    MissingRepoPath,
}

impl View for SetupRequest {
    type V = SetupRequestView;

    open spec fn view(&self) -> SetupRequestView {
        match self {
            SetupRequest::Defaults => SetupRequestView::Defaults,
            SetupRequest::Custom(config) => SetupRequestView::Custom(config@),
            SetupRequest::MissingNotesFolder => SetupRequestView::MissingNotesFolder,
            SetupRequest::MissingRepoPath => SetupRequestView::MissingRepoPath,
        }
    }
}

/// What the command line asks for.
#[derive(Clone, Debug, PartialEq, Eq)]
pub enum CliCommand {
    /// No command was given: take a note.
    TakeNote,
    /// Announce the program's name and version.
    ShowVersion,
    /// Write a configuration file.
    Setup(SetupRequest),
    /// A command that the program does not know.
    Unknown(String),
}

/// A `CliCommand` as plain values.
pub enum CliCommandView {
    TakeNote,
    ShowVersion,
    Setup(SetupRequestView),
    Unknown(Seq<char>),
}

impl View for CliCommand {
    type V = CliCommandView;

    open spec fn view(&self) -> CliCommandView {
        match self {
            CliCommand::TakeNote => CliCommandView::TakeNote,
            CliCommand::ShowVersion => CliCommandView::ShowVersion,
            CliCommand::Setup(request) => CliCommandView::Setup(request@),
            CliCommand::Unknown(command) => CliCommandView::Unknown(command@),
        }
    }
}

/// What `--setup` followed by `args` asks for: the editor, the notes folder
/// and the repository, in this order. Values after the third are ignored.
pub open spec fn setup_request(args: Seq<Seq<char>>) -> SetupRequestView {
    if args.len() == 0 {
        SetupRequestView::Defaults
    } else if args.len() == 1 {
        SetupRequestView::MissingNotesFolder
    } else if args.len() == 2 {
        SetupRequestView::MissingRepoPath
    } else {
        SetupRequestView::Custom(
            ConfigView { editor: args[0], notes_folder: args[1], repo_path: args[2] },
        )
    }
}

/// What the command `command` followed by `args` asks for.
pub open spec fn command_request(command: Seq<char>, args: Seq<Seq<char>>) -> CliCommandView {
    if command == VERSION_FLAG@ {
        CliCommandView::ShowVersion
    } else if command == SETUP_FLAG@ {
        CliCommandView::Setup(setup_request(args))
    } else {
        CliCommandView::Unknown(command)
    }
}

/// What the whole command line asks for. `args[0]` is the program's own name;
/// `args[1]`, if there is one, is the command, and the rest belongs to it.
pub open spec fn command_line_request(args: Seq<Seq<char>>) -> CliCommandView {
    if args.len() < 2 {
        CliCommandView::TakeNote
    } else {
        command_request(args[1], args.skip(2))
    }
}

/// The line that announces the program's name and version.
pub open spec fn version_line() -> Seq<char> {
    APP_NAME@ + " Version "@ + APP_VERSION@
}

/// The line that answers a command the program does not know.
pub open spec fn unknown_command_line(command: Seq<char>) -> Seq<char> {
    "Command is not registered "@ + command
}

/// The line that says where the default configuration was written.
pub open spec fn defaults_written_line() -> Seq<char> {
    "default configuration file is in ~/"@ + config_location()
}

/// The line that says which value a setup request lacks, if it lacks one.
pub open spec fn missing_value_line(request: SetupRequestView) -> Option<Seq<char>> {
    match request {
        SetupRequestView::MissingNotesFolder => Some("Til folder is a must"@),
        SetupRequestView::MissingRepoPath => Some("Repo path is a must"@),
        _ => None,
    }
}

/// Reads the values that follow `--setup`.
pub fn setup(args: &[String]) -> (request: SetupRequest)
    ensures
        request@ == setup_request(args.deep_view()),
{
    if args.len() == 0 {
        SetupRequest::Defaults
    } else if args.len() == 1 {
        SetupRequest::MissingNotesFolder
    } else if args.len() == 2 {
        SetupRequest::MissingRepoPath
    } else {
        SetupRequest::Custom(
            Config {
                editor: args[0].clone(),
                notes_folder: args[1].clone(),
                repo_path: args[2].clone(),
            },
        )
    }
}

/// Reads one command and the arguments that follow it.
pub fn run(command: &str, args: &[String]) -> (request: CliCommand)
    ensures
        request@ == command_request(command@, args.deep_view()),
{
    if same_text(command, VERSION_FLAG) {
        CliCommand::ShowVersion
    } else if same_text(command, SETUP_FLAG) {
        CliCommand::Setup(setup(args))
    } else {
        CliCommand::Unknown(String::from_str(command))
    }
}

/// Reads the command line, `args[0]` being the program's own name.
pub fn check_args(args: &[String]) -> (request: CliCommand)
    ensures
        request@ == command_line_request(args.deep_view()),
{
    if args.len() < 2 {
        CliCommand::TakeNote
    } else {
        let rest = slice_subrange(args, 2, args.len());
        assert(rest.deep_view() =~= args.deep_view().skip(2));
        run(args[1].as_str(), rest)
    }
}

/// The line that announces the program's name and version.
pub fn version_text() -> (line: String)
    ensures
        line@ == version_line(),
{
    let mut line = join_texts(APP_NAME, " Version ");
    line.append(APP_VERSION);
    line
}

/// The line that says where the default configuration was written.
pub fn defaults_written_text() -> (line: String)
    ensures
        line@ == defaults_written_line(),
{
    let path = config_relative_path();
    join_texts("default configuration file is in ~/", path.as_str())
}

impl SetupRequest {
    /// The line that says which value this request lacks, if it lacks one.
    pub fn missing_value_text(&self) -> (line: Option<String>)
        ensures
            match line {
                Some(text) => missing_value_line(self@) == Some(text@),
                None => missing_value_line(self@) is None,
            },
    {
        match self {
            SetupRequest::MissingNotesFolder => Some(String::from_str("Til folder is a must")),
            SetupRequest::MissingRepoPath => Some(String::from_str("Repo path is a must")),
            _ => None,
        }
    }
}

/// The line that answers the unknown command `command`.
pub fn unknown_command_text(command: &str) -> (line: String)
    ensures
        line@ == unknown_command_line(command@),
{
    join_texts("Command is not registered ", command)
}

} // verus!
