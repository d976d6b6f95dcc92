//! The commands of the program and what each of them asks for.
//!
//! The library does not read arguments, print or touch the history store.
//! It says which actions a command stands for; the program carries them out
//! one after the other and stops at the first that fails.

use crate::error::ErrorKind;
use vstd::prelude::*;
use vstd::string::StringExecFns;

verus! {

/// The parsed command line.
#[derive(Debug, PartialEq)]
pub struct Cli {
    pub command: Option<Commands>,
}

/// The subcommands.
#[derive(Debug, PartialEq)]
pub enum Commands {
    /// Convert a value from one unit to another.
    Convert { from: Option<String>, to: Option<String>, value: Option<String> },
    /// List the supported units.
    List,
    /// Show the history of conversions, and empty it afterwards if `clear`.
    History { clear: bool },
}

/// Something the program says that is not the result of an action.
#[derive(Clone, Copy, Debug, PartialEq, Eq, Structural)]
pub enum Notice {
    /// The history was emptied.
    HistoryCleared,
    /// No subcommand was given.
    InvalidCommand,
}

/// One thing for the program to do.
#[derive(Debug, PartialEq)]
pub enum Action {
    /// Validate the request, convert, show the record and append it to the
    /// stored history.
    Convert { from: Option<String>, to: Option<String>, value: Option<String> },
    /// Print the list of supported units.
    ListUnits,
    /// Load the stored history and print it.
    ShowHistory,
    /// Replace the stored history by an empty one.
    ClearHistory,
    /// Print a notice.
    Say(Notice),
}

impl Notice {
    /// The text of the notice.
    pub open spec fn spec_message(self) -> Seq<char> {
        match self {
            Notice::HistoryCleared => "Riwayat konversi dibersihkan."@,
            Notice::InvalidCommand =>
                "Perintah tidak valid. Gunakan `--help` untuk melihat daftar perintah."@,
        }
    }

    /// The text of the notice.
    pub fn message(&self) -> (text: &'static str)
        ensures
            text@ == self.spec_message(),
    {
        match self {
            Notice::HistoryCleared => "Riwayat konversi dibersihkan.",
            Notice::InvalidCommand =>
                "Perintah tidak valid. Gunakan `--help` untuk melihat daftar perintah.",
        }
    }
}

/// The actions that a command line stands for, in the order in which they
/// are carried out. A history command shows the history first and only then
/// clears it. Without a subcommand there is nothing to do but to say so.
pub open spec fn actions(cli: Cli) -> Seq<Action> {
    match cli.command {
        Some(Commands::Convert { from, to, value }) => seq![Action::Convert { from, to, value }],
        Some(Commands::List) => seq![Action::ListUnits],
        Some(Commands::History { clear }) => if clear {
            seq![Action::ShowHistory, Action::ClearHistory, Action::Say(Notice::HistoryCleared)]
        } else {
            seq![Action::ShowHistory]
        },
        None => seq![Action::Say(Notice::InvalidCommand)],
    }
}

/// The actions that a command line stands for.
pub fn run(cli: Cli) -> (plan: Vec<Action>)
    ensures
        plan@ == actions(cli),
{
    match cli.command {
        Some(Commands::Convert { from, to, value }) => vec![Action::Convert { from, to, value }],
        Some(Commands::List) => vec![Action::ListUnits],
        Some(Commands::History { clear }) => {
            if clear {
                vec![Action::ShowHistory, Action::ClearHistory, Action::Say(Notice::HistoryCleared)]
            } else {
                vec![Action::ShowHistory]
            }
        },
        None => vec![Action::Say(Notice::InvalidCommand)],
    }
}

/// The line reported for a failed run: the word `Error`, a colon, a space
/// and the message of the error.
pub fn error_line(error: &ErrorKind) -> (line: String)
    ensures
        line@ == "Error: "@ + error@.message(),
{
    let message = error.message();
    String::from_str("Error: ").concat(message.as_str())
}

/// The exit status of a run: zero if it succeeded, one if it failed.
pub fn exit_status(outcome: &Result<bool, ErrorKind>) -> (status: i32)
    ensures
        status == if outcome is Ok { 0i32 } else { 1i32 },
{
    match outcome {
        Ok(_) => 0,
        Err(_) => 1,
    }
}

} // verus!
