//! The errors of the store.

use vstd::prelude::*;
use vstd::string::StringExecFns;

verus! {

/// Why a task could not be marked complete.
#[derive(PartialEq, Eq, Debug)]
pub enum TaskError {
    /// The store holds no task at the given position.
    NoSuchTask,
}

impl TaskError {
    /// The text shown to the user.
    pub open spec fn text(self) -> Seq<char> {
        "No such task"@
    }

    /// The text shown to the user.
    pub fn message(&self) -> (s: String)
        ensures
            s@ == self.text(),
    {
        String::from_str("No such task")
    }
}

/// Why a store could not be read from, or written to, its file. Both are
/// fatal to the command that met them.
#[derive(PartialEq, Eq, Debug)]
pub enum StoreError {
    /// The file is there, but what it holds is not the document of a store.
    /// The string says what was found wrong.
    Parse(String),
    /// The store could not be written out. The string says what went wrong.
    Io(String),
}

impl StoreError {
    /// What was being done when the error came up.
    pub open spec fn context(self) -> Seq<char> {
        match self {
            StoreError::Parse(_) => "Failed to read input file"@,
            StoreError::Io(_) => "Failed to save to output file"@,
        }
    }

    /// What went wrong, as the error carries it.
    pub open spec fn detail(self) -> Seq<char> {
        match self {
            StoreError::Parse(detail) => detail@,
            StoreError::Io(detail) => detail@,
        }
    }

    /// The full text of the error: the context, a colon and the detail.
    pub open spec fn text(self) -> Seq<char> {
        self.context() + ": "@ + self.detail()
    }

    /// The full text of the error, to show to the user.
    pub fn message(&self) -> (s: String)
        ensures
            s@ == self.text(),
    {
        let mut s = match self {
            StoreError::Parse(_) => String::from_str("Failed to read input file"),
            StoreError::Io(_) => String::from_str("Failed to save to output file"),
        };
        s.append(": ");
        match self {
            StoreError::Parse(detail) => s.append(detail.as_str()),
            StoreError::Io(detail) => s.append(detail.as_str()),
        }
        s
    }
}

} // verus!
