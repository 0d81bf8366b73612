//! The token standards a token or collection can be built upon.

use vstd::prelude::*;

verus! {

/// Tracks which token standard a token / collection is built upon.
#[derive(Clone, Copy, Debug, Eq, PartialEq)]
pub enum TokenStandard {
    V1,
    V2,
}

impl TokenStandard {
    /// The lower-case label of the standard.
    pub fn label(&self) -> (label: &str)
        ensures
            *self == TokenStandard::V1 ==> label@ == "v1"@,
            *self == TokenStandard::V2 ==> label@ == "v2"@,
    {
        match self {
            TokenStandard::V1 => "v1",
            TokenStandard::V2 => "v2",
        }
    }
}

} // verus!
