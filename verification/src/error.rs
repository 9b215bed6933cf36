//! Why reading a source failed.

use vstd::prelude::*;
use vstd::string::StringExecFns;

verus! {

/// A hard failure: it ends the call that met it.
#[derive(Debug, Clone, PartialEq, Eq)]
pub enum Error {
    /// A source does not have the form it should have. The first string names
    /// the source, the second says what is wrong and, where a field could not
    /// be read, which one.
    ParseFile(&'static str, &'static str),
    /// Nothing of this name was found.
    NotFound(String),
}

/// The text of a failure that a source does not have the form it should have.
pub open spec fn spec_parse_message(file: Seq<char>, reason: Seq<char>) -> Seq<char> {
    "Failed to parse `"@ + file + "`, reason: `"@ + reason + "`"@
}

/// The text of a failure that nothing of a name was found.
pub open spec fn spec_missing_message(name: Seq<char>) -> Seq<char> {
    "Failed to find `"@ + name + "`"@
}

impl Error {
    /// The failure in words.
    pub open spec fn spec_message(self) -> Seq<char> {
        match self {
            Error::ParseFile(file, reason) => spec_parse_message(file@, reason@),
            Error::NotFound(name) => spec_missing_message(name@),
        }
    }

    /// Says the failure in words: the source and the reason, or the name that
    /// was not found.
    pub fn message(&self) -> (text: String)
        ensures
            text@ == self.spec_message(),
    {
        match self {
            Error::ParseFile(file, reason) => {
                let mut text = "Failed to parse `".to_owned();
                text.append(file);
                text.append("`, reason: `");
                text.append(reason);
                text.append("`");
                text
            },
            Error::NotFound(name) => {
                let mut text = "Failed to find `".to_owned();
                text.append(name.as_str());
                text.append("`");
                text
            },
        }
    }
}

/// A notice about what was passed over or left at its default. A notice never
/// fails a call and changes no result.
///
/// A notice about a line names the source of the block, then the index of the
/// line in it, counted from zero.
#[derive(Debug, Clone, Copy, PartialEq, Eq)]
pub enum Diagnostic {
    /// The line states no fact: it lacks the prefix or the equals sign.
    SkippedLine(&'static str, usize),
    /// The fact on the line has a key that the record does not know.
    UnknownKey(&'static str, usize),
    /// The fact on the line gives an enumeration a value that names no
    /// variant: the field reads `Unknown`.
    UnknownValue(&'static str, usize),
    /// The file of this name may be absent and is: its field keeps the
    /// default.
    MissingFile(&'static str),
}

} // verus!
