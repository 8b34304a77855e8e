//! Errors of the controller's own making.

use vstd::prelude::*;
use vstd::string::StringExecFns;

verus! {

/// Malformed input.
#[derive(Clone, Copy, Debug, PartialEq, Eq)]
pub enum Error {
    /// An object lacks the key that was expected at this path. Nothing in
    /// the present reconciliation raises it; it is kept for code that reads
    /// object metadata.
    MissingObjectKey(&'static str),
}

impl Error {
    /// The text of the error.
    pub open spec fn message_spec(self) -> Seq<char> {
        match self {
            Error::MissingObjectKey(key) => "MissingObjectKey: "@ + key@,
        }
    }

    /// The text of the error: its name, a colon and the missing key.
    pub fn message(&self) -> (text: String)
        ensures
            text@ == self.message_spec(),
    {
        match *self {
            Error::MissingObjectKey(key) => {
                let mut text = String::from_str("MissingObjectKey: ");
                text.append(key);
                text
            },
        }
    }
}

} // verus!
