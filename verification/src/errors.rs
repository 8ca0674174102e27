//! Error values the engine reports: failures while loading the baseline
//! configuration, and failures of external commands run as one-shot tasks.

use vstd::prelude::*;

verus! {

/// Why the baseline load at startup failed. The wizard cannot proceed
/// past it: the host shows a persistent blocking message instead.
#[derive(Clone, Copy, Debug, PartialEq, Eq, Structural)]
pub enum LoadError {
    FileError,
    FormatError,
}

impl LoadError {
    /// The persistent blocking message shown for this failure.
    pub open spec fn message_spec(self) -> Seq<char> {
        match self {
            LoadError::FileError => "configuration file could not be read"@,
            LoadError::FormatError => "configuration file could not be parsed"@,
        }
    }

    /// The persistent blocking message shown for this failure.
    pub fn message(&self) -> (text: String)
        ensures
            text@ == self.message_spec(),
    {
        match self {
            LoadError::FileError => String::from_str("configuration file could not be read"),
            LoadError::FormatError => String::from_str("configuration file could not be parsed"),
        }
    }
}

/// Why a dispatched one-shot task failed. The failure reaches the engine
/// as an event and never advances the readiness chain it belongs to.
#[derive(Clone, Copy, Debug, PartialEq, Eq, Structural)]
pub enum CMDError {
    ExcError,
}

impl CMDError {
    /// The text shown to the user for this failure.
    pub open spec fn message_spec(self) -> Seq<char> {
        match self {
            CMDError::ExcError => "external command failed"@,
        }
    }

    /// The text shown to the user for this failure.
    pub fn message(&self) -> (text: String)
        ensures
            text@ == self.message_spec(),
    {
        match self {
            CMDError::ExcError => String::from_str("external command failed"),
        }
    }
}

} // verus!
