//! Error taxonomy of the diagnostics pipeline, one variant per stage.

use vstd::prelude::*;

verus! {

/// Failure of the severity filter: the text matched no known level name.
/// The offending text is kept for diagnostics.
#[derive(Debug)]
pub enum ParseError {
    UnrecognizedLevel(String),
}

/// Failure of the global installer: a pipeline was already installed in this
/// process. The first installed pipeline stays active and unaffected.
#[derive(Debug)]
pub enum InstallError {
    AlreadyInstalled,
}

/// Failure of the startup entry point, tagged with the stage that failed so
/// that the caller can tell a parse failure from a construction or an
/// installation failure while the underlying cause stays inspectable.
#[derive(Debug)]
pub enum InitError {
    /// The severity filter rejected the level text (parse stage).
    UnrecognizedLevel(String),
    /// A sink adapter could not be built (construction stage); the builder's
    /// own description of the cause is kept.
    SinkConstruction(String),
    /// A pipeline was already installed in this process (install stage).
    AlreadyInstalled,
}

impl InitError {
    /// A stage-identifying description for the startup caller's report.
    pub fn describe(&self) -> (r: &'static str)
        ensures
            self is UnrecognizedLevel ==> r@ == "failed to parse log level"@,
            self is SinkConstruction ==> r@ == "failed to construct a sink adapter"@,
            self is AlreadyInstalled ==> r@ == "failed to initialize logging: already initialized"@,
    {
        match self {
            InitError::UnrecognizedLevel(_) => "failed to parse log level",
            InitError::SinkConstruction(_) => "failed to construct a sink adapter",
            InitError::AlreadyInstalled => "failed to initialize logging: already initialized",
        }
    }
}

} // verus!
