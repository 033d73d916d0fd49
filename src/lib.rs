//! Catalog of NCERT textbooks: resolving a subject, grade and title to one
//! book, and building where a chapter of it is fetched from and stored to.
//!
//! When two titles of one subject are equal up to case and separators, the
//! first in catalog order is the one found.

pub mod catalog;
pub mod cli;
pub mod locate;
pub mod shelf;
pub mod structs;
pub mod text;

pub use catalog::{find_by_title, NcertBooks};
pub use cli::{Cli, Commands, LogLevel};
pub use locate::{accept_transfer, download_target, file_name, remote_url, DownloadTarget, Transfer};
pub use structs::{Book, BookError, Grade, Subject, SubjectBooks};
