//! The command line.

use crate::document::DocumentBuilder;
use crate::error::{DocumentError, ErrorView};
use vstd::prelude::*;

verus! {

/// How much the process logs.
#[derive(Debug, Clone, Copy, PartialEq, Eq, Structural)]
pub enum LogLevel {
    Info,
    Debug,
}

/// The arguments of the command line.
#[derive(Debug)]
pub struct Args {
    /// The file to open at start.
    pub file_name: Option<String>,
    /// Log at the level of information.
    pub log: bool,
    /// Log at the level of debugging; stronger than `log`.
    pub debug: bool,
}

impl Args {
    /// The level at which to log, if at all: debugging wherever it is asked
    /// for, else information if logging is asked for.
    pub open spec fn level(self) -> Option<LogLevel> {
        if self.debug {
            Some(LogLevel::Debug)
        } else if self.log {
            Some(LogLevel::Info)
        } else {
            None
        }
    }

    /// The level at which to log, or `None` to leave logging off.
    pub fn log_level(&self) -> (level: Option<LogLevel>)
        ensures
            level == self.level(),
    {
        if self.debug {
            Some(LogLevel::Debug)
        } else if self.log {
            Some(LogLevel::Info)
        } else {
            None
        }
    }

    /// The builder for the document named on the command line. Without a file
    /// name the builder is empty. A name at which no file exists is an error,
    /// on which the process is to end with status 1.
    pub fn document_builder(&self) -> (result: Result<DocumentBuilder, DocumentError>)
        ensures
            match self.file_name {
                None => result matches Ok(builder) && builder@ is None,
                Some(name) => match result {
                    Ok(builder) => builder@ == Some(name@),
                    Err(error) => error@ == ErrorView::FileNotFound(name@) || error@ is IoError,
                },
            },
    {
        match &self.file_name {
            None => Ok(DocumentBuilder::default()),
            Some(name) => DocumentBuilder::default().set_file_path(name.as_str()),
        }
    }
}

} // verus!
