//! The protocol version marker.

use vstd::prelude::*;

verus! {

/// The marker of protocol version 2.0, the only one there is: it is written
/// as the string `"2.0"`, and no other string is read as it.
#[derive(Debug, Clone, Copy, PartialEq, Eq, Structural, Hash)]
pub struct Version;

/// The text that the version marker is written as.
pub open spec fn version_text() -> Seq<char> {
    "2.0"@
}

impl Version {
    /// The text that the marker is written as.
    pub fn as_str(&self) -> (s: &'static str)
        ensures
            s@ == version_text(),
    {
        "2.0"
    }
}

} // verus!
