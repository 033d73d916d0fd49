use vstd::prelude::*;

use crate::structs::Subject;

verus! {

/// The command line: the operation and how much to log.
#[derive(Debug, Clone, PartialEq, Eq)]
pub struct Cli {
    pub command: Commands,
    pub silent: bool,
    pub debug: bool,
}

/// The operations offered on the command line.
#[derive(Debug, Clone, PartialEq, Eq)]
pub enum Commands {
    /// Download one chapter of a book into the directory `path`.
    Download {
        subject: Option<Subject>,
        grade: Option<u8>,
        title: Option<String>,
        path: String,
        chapter: Option<u8>,
    },
    /// List the catalog.
    List { subject: Option<Subject>, grade: Option<u8> },
}

/// How much is logged.
#[derive(Debug, Clone, Copy, PartialEq, Eq, Structural)]
pub enum LogLevel {
    Debug,
    Info,
    Error,
}

impl Cli {
    /// `--debug` logs everything, otherwise `--silent` logs errors only, and
    /// by default information is logged.
    pub fn log_level(&self) -> (r: LogLevel)
        ensures
            r == (if self.debug {
                LogLevel::Debug
            } else if self.silent {
                LogLevel::Error
            } else {
                LogLevel::Info
            }),
    {
        if self.debug {
            LogLevel::Debug
        } else if self.silent {
            LogLevel::Error
        } else {
            LogLevel::Info
        }
    }
}

} // verus!
