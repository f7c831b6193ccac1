use std::path::PathBuf;

use vstd::prelude::*;

verus! {

/// How serious a message of a build log is.
#[derive(Debug, PartialEq, Eq, Clone, Copy, PartialOrd, Ord, Hash, Structural)]
pub enum BuildErrorLevel {
    Error,
    Warning,
}

/// A message of a build log: the file it is about, its level, its text, a
/// hint if the log gives one, and the line if it names one.
#[derive(Debug, PartialEq, Eq, Hash)]
pub struct BuildError {
    pub relative_path: PathBuf,
    pub level: BuildErrorLevel,
    pub message: String,
    pub hint: Option<String>,
    pub line: Option<u32>,
}

/// The messages of a build log, in order.
#[derive(Debug, PartialEq, Eq, Hash)]
pub struct BuildLog {
    pub errors: Vec<BuildError>,
}

} // verus!
