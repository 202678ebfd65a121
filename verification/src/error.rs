//! The errors of the library.

use vstd::prelude::*;
use vstd::string::*;

verus! {

/// Why a file's processing stopped, or an element was refused.
#[derive(Debug, Clone, PartialEq, Eq)]
pub enum ProcessError {
    /// An update file held a record that only a table dump may hold.
    WrongFileKind { file: String },
    /// A withdrawal stood where an announcement was asked for.
    InvalidElement,
}

/// What is said of a withdrawal that was handed in as an announcement.
pub open spec fn invalid_element_message() -> Seq<char> {
    "Cannot create announcement from withdrawal element"@
}

/// What is said of an update file named `file` that holds a foreign record.
pub open spec fn wrong_file_kind_message(file: Seq<char>) -> Seq<char> {
    "Unsupported content: Update file "@ + file + " might be a bview."@
}

impl ProcessError {
    /// The error in words.
    pub open spec fn text(self) -> Seq<char> {
        match self {
            ProcessError::WrongFileKind { file } => wrong_file_kind_message(file@),
            ProcessError::InvalidElement => invalid_element_message(),
        }
    }

    /// The error in words; a wrong file kind names the file.
    pub fn message(&self) -> (s: String)
        ensures
            s@ == self.text(),
    {
        match self {
            ProcessError::WrongFileKind { file } => {
                let mut s = String::from_str("Unsupported content: Update file ");
                s.append(file.as_str());
                s.append(" might be a bview.");
                s
            },
            ProcessError::InvalidElement => String::from_str(
                "Cannot create announcement from withdrawal element",
            ),
        }
    }
}

} // verus!
