//! Local report store: where a report is kept on this machine.

use vstd::prelude::*;
use vstd::string::StringExecFns;
use crate::json::{json_text_member, read_text_member, text_of};

verus! {

/// The member of the preference file that names the report directory.
pub const PREFERENCE_KEY: &'static str = "report_dir";

/// The directory, below the user's documents, that holds this
/// application's files.
pub const DEFAULT_APP_DIRECTORY: &'static str = "Chronicle";

/// The directory, below `DEFAULT_APP_DIRECTORY`, that holds the reports.
pub const DEFAULT_REPORT_DIRECTORY: &'static str = "日报";

/// The directory that reports are written to.
#[derive(Debug, Clone, PartialEq, Eq)]
pub enum OutputDir {
    /// The directory that the user chose.
    Preferred { path: String },
    /// `DEFAULT_APP_DIRECTORY` and `DEFAULT_REPORT_DIRECTORY` below the
    /// user's documents directory `documents`.
    Default { documents: String },
}

/// One file to write: `content`, replacing what the file `file_name` in
/// `directory` held, the directory being created where it is missing.
#[derive(Debug, Clone, PartialEq, Eq)]
pub struct LocalWrite {
    pub directory: String,
    pub file_name: String,
    pub content: String,
}

/// How a `LocalWrite` ended.
#[derive(Debug, Clone, PartialEq, Eq)]
pub enum WriteReport {
    /// The file was written; `path` is where it lies.
    Written { path: String },
    /// The directory could not be created or the file not written;
    /// `error` is what the system said.
    Failed { error: String },
}

/// The characters of an optional borrowed text.
pub open spec fn chars_of_option(text: Option<&str>) -> Option<Seq<char>> {
    match text {
        Some(t) => Some(t@),
        None => None,
    }
}

/// The report directory that the text of a preference file names, if it
/// names one.
pub fn preferred_report_dir(preferences: &str) -> (r: Option<String>)
    ensures
        text_of(r) == json_text_member(preferences@, PREFERENCE_KEY@),
{
    read_text_member(preferences, PREFERENCE_KEY)
}

/// Settles the report directory. `preferred` is the directory that the
/// user chose, if any; `preferred_usable` says whether it exists or could
/// be created; `documents` is the user's documents directory, if the
/// platform has one. The preference wins where it is usable; the default
/// is taken otherwise; `None` where neither can be had.
pub fn resolve_output_dir(
    preferred: Option<&str>,
    preferred_usable: bool,
    documents: Option<&str>,
) -> (r: Option<OutputDir>)
    ensures
        match r {
            Some(OutputDir::Preferred { path }) => preferred_usable && chars_of_option(preferred)
                == Some(path@),
            Some(OutputDir::Default { documents: base }) => !(preferred is Some
                && preferred_usable) && chars_of_option(documents) == Some(base@),
            None => !(preferred is Some && preferred_usable) && documents is None,
        },
{
    match preferred {
        Some(p) if preferred_usable => Some(OutputDir::Preferred { path: String::from_str(p) }),
        _ => match documents {
            Some(d) => Some(OutputDir::Default { documents: String::from_str(d) }),
            None => None,
        },
    }
}

} // verus!
