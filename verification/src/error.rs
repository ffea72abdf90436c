//! The failures an operation can end in.
//!
//! Every failure is final: nothing retries a step or turns a failure into a
//! warning. A failure names the step that broke and carries the detail that
//! the step reported.

use vstd::prelude::*;
use vstd::string::*;

verus! {

/// What went wrong, by the step that failed.
#[derive(Clone, Copy, Debug, PartialEq, Eq, Structural)]
pub enum ErrorKind {
    /// The database configuration cannot be used as it stands.
    Configuration,
    /// Looking up a named instance failed or timed out.
    Discovery,
    /// The transport could not be opened or authentication was refused.
    Connection,
    /// The named database does not exist or is not accessible.
    DatabaseSelection,
    /// The ledger query failed or returned a malformed row.
    Query,
    /// The migrations directory or one of its entries could not be read.
    Filesystem,
}

impl ErrorKind {
    /// The words that introduce a failure of this kind.
    pub open spec fn label(self) -> Seq<char> {
        match self {
            ErrorKind::Configuration => "configuration error"@,
            ErrorKind::Discovery => "discovery error"@,
            ErrorKind::Connection => "connection error"@,
            ErrorKind::DatabaseSelection => "database selection error"@,
            ErrorKind::Query => "query error"@,
            ErrorKind::Filesystem => "filesystem error"@,
        }
    }

    /// The words that introduce a failure of this kind.
    pub fn as_str(self) -> (words: &'static str)
        ensures
            words@ == self.label(),
    {
        match self {
            ErrorKind::Configuration => "configuration error",
            ErrorKind::Discovery => "discovery error",
            ErrorKind::Connection => "connection error",
            ErrorKind::DatabaseSelection => "database selection error",
            ErrorKind::Query => "query error",
            ErrorKind::Filesystem => "filesystem error",
        }
    }
}

/// A failed operation: the kind of failure and what the failing step said.
#[derive(Debug, PartialEq, Eq)]
pub struct CheckError {
    pub kind: ErrorKind,
    pub detail: String,
}

impl CheckError {
    /// A failure of the given kind with the given detail.
    pub fn new(kind: ErrorKind, detail: String) -> (error: Self)
        ensures
            error.kind == kind,
            error.detail@ == detail@,
    {
        CheckError { kind, detail }
    }

    /// The failure in one line: the kind's label, a colon, the detail.
    pub open spec fn rendered(&self) -> Seq<char> {
        self.kind.label() + ": "@ + self.detail@
    }

    /// The failure in one line, for presenting to an operator.
    pub fn message(&self) -> (line: String)
        ensures
            line@ == self.rendered(),
    {
        let mut line = String::from_str(self.kind.as_str());
        line.append(": ");
        line.append(self.detail.as_str());
        line
    }
}

impl Clone for CheckError {
    fn clone(&self) -> (copy: Self)
        ensures
            copy.kind == self.kind,
            copy.detail@ == self.detail@,
    {
        CheckError { kind: self.kind, detail: self.detail.clone() }
    }
}

} // verus!
