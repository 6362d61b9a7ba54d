//! The command line: what can be asked for, and what each request comes
//! down to.

use vstd::prelude::*;
use vstd::string::*;

verus! {

#[derive(Clone, Debug, PartialEq, Eq)]
pub struct Args {
    pub command: Option<Commands>,
}

#[derive(Clone, Debug, PartialEq, Eq)]
pub enum Commands {
    AddTorrent { torrent: String },
    FetchRss { url: String, filter: Option<String> },
    PrintDefaultConfig,
    PrintDefaultKeymap,
    PrintDefaultCategories,
}

/// A built-in default that can be printed.
#[derive(Clone, Copy, Debug, PartialEq, Eq, Structural)]
pub enum DefaultDocument {
    Config,
    Keymap,
    Categories,
}

impl DefaultDocument {
    /// The line that goes to the log before the document is printed.
    pub open spec fn notice(self) -> Seq<char> {
        match self {
            DefaultDocument::Config => "Printing config"@,
            DefaultDocument::Keymap => "Printing key mapping"@,
            DefaultDocument::Categories => "Printing categories"@,
        }
    }

    /// The line that goes to the log before the document is printed.
    pub fn log_line(&self) -> (line: &'static str)
        ensures
            line@ == self.notice(),
    {
        match self {
            DefaultDocument::Config => "Printing config",
            DefaultDocument::Keymap => "Printing key mapping",
            DefaultDocument::Categories => "Printing categories",
        }
    }
}

impl Commands {
    /// The default that the command prints, if it is one that prints.
    pub fn document(&self) -> (document: Option<DefaultDocument>)
        ensures
            document == (match self {
                Commands::PrintDefaultConfig => Some(DefaultDocument::Config),
                Commands::PrintDefaultKeymap => Some(DefaultDocument::Keymap),
                Commands::PrintDefaultCategories => Some(DefaultDocument::Categories),
                _ => None,
            }),
    {
        match self {
            Commands::PrintDefaultConfig => Some(DefaultDocument::Config),
            Commands::PrintDefaultKeymap => Some(DefaultDocument::Keymap),
            Commands::PrintDefaultCategories => Some(DefaultDocument::Categories),
            _ => None,
        }
    }
}

/// The log line for a torrent that was handed to the daemon: that it was
/// added, or why it could not be.
pub open spec fn added_notice(torrent: Seq<char>, failure: Option<Seq<char>>) -> Seq<char> {
    match failure {
        None => "Torrent added: "@ + torrent,
        Some(reason) => "Cannot add torrent: "@ + torrent + ", "@ + reason,
    }
}

/// The log line for a torrent that was handed to the daemon.
pub fn added_log_line(torrent: &str, failure: Option<&str>) -> (line: String)
    ensures
        line@ == added_notice(
            torrent@,
            match failure {
                Some(reason) => Some(reason@),
                None => None,
            },
        ),
{
    match failure {
        None => {
            let mut line = String::from_str("Torrent added: ");
            line.append(torrent);
            line
        },
        Some(reason) => {
            let mut line = String::from_str("Cannot add torrent: ");
            line.append(torrent);
            line.append(", ");
            line.append(reason);
            line
        },
    }
}

} // verus!
