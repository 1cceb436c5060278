//! The core of a viewer for one Markdown file: which file is open, whether
//! it is being watched for changes, and how its text becomes HTML.
//!
//! [`document`] holds the document and its builder, [`watch`] what the
//! filesystem watch reports and what follows from it, [`text`] the way from
//! the lines of a file to HTML, [`command`] and [`menu`] what the viewer and
//! its menu can ask for, [`args`] the command line, and [`error`] the
//! failures that all of them report.
//!
//! Reading the file and showing the window are left to the program around
//! this library, which hands in what it read and acts on what it gets back.

pub mod args;
pub mod command;
pub mod document;
pub mod error;
pub mod menu;
pub mod text;
pub mod watch;
