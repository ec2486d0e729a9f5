//! Typed failures shared by the managers and the command surface.

use vstd::prelude::*;

verus! {

/// Which argument of a call was unacceptable.
#[derive(Clone, Copy, Debug, PartialEq, Eq, Structural)]
pub enum ArgumentFault {
    /// The tab identifier was the empty string.
    EmptyTabId,
    /// The URL was the empty string.
    EmptyUrl,
    /// The script was the empty string.
    EmptyScript,
    /// Width or height was zero or negative.
    NonPositiveSize,
    /// A navigation state broke its own invariants, or was filed under an
    /// identifier other than the one it carries.
    InconsistentState,
}

/// Why an operation was refused. A refused operation changes nothing.
#[derive(Clone, Copy, Debug, PartialEq, Eq, Structural)]
pub enum AppError {
    /// The tab identifier names no registered tab.
    UnknownTab,
    /// An argument was rejected before any state was touched.
    InvalidArgument(ArgumentFault),
}

impl ArgumentFault {
    /// The text shown for this fault.
    pub open spec fn text(self) -> Seq<char> {
        match self {
            ArgumentFault::EmptyTabId => "tab_id cannot be empty"@,
            ArgumentFault::EmptyUrl => "URL cannot be empty"@,
            ArgumentFault::EmptyScript => "script cannot be empty"@,
            ArgumentFault::NonPositiveSize => "Width and height must be positive"@,
            ArgumentFault::InconsistentState => "navigation state is inconsistent"@,
        }
    }

    /// Human-readable description of the fault.
    pub fn message(&self) -> (s: String)
        ensures
            s@ == self.text(),
    {
        match self {
            ArgumentFault::EmptyTabId => "tab_id cannot be empty".to_owned(),
            ArgumentFault::EmptyUrl => "URL cannot be empty".to_owned(),
            ArgumentFault::EmptyScript => "script cannot be empty".to_owned(),
            ArgumentFault::NonPositiveSize => "Width and height must be positive".to_owned(),
            ArgumentFault::InconsistentState => "navigation state is inconsistent".to_owned(),
        }
    }
}

impl AppError {
    /// The text shown for this error.
    pub open spec fn text(self) -> Seq<char> {
        match self {
            AppError::UnknownTab => "unknown tab"@,
            AppError::InvalidArgument(fault) => fault.text(),
        }
    }

    /// Human-readable description of the error.
    pub fn message(&self) -> (s: String)
        ensures
            s@ == self.text(),
    {
        match self {
            AppError::UnknownTab => "unknown tab".to_owned(),
            AppError::InvalidArgument(fault) => fault.message(),
        }
    }
}

} // verus!
