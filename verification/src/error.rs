//! The ways in which a fetch can fail.

use crate::decimal::{decimal, u64_to_string};
use vstd::prelude::*;

verus! {

/// Why a fetch produced no value. An absent resource is not among these: a
/// lookup by identifier that finds nothing succeeds with `None`.
#[derive(Debug, Clone, Copy, PartialEq, Eq, Structural)]
pub enum DeezerError {
    /// The exchange failed below HTTP (name resolution, connection, TLS,
    /// timeout): no response arrived.
    Transport,
    /// A response arrived, and its status is outside the success range.
    Status(u16),
    /// A response with a success status arrived, and its body does not have
    /// the shape that was asked for.
    Decode,
}

impl DeezerError {
    /// The text of `describe`.
    pub open spec fn description(self) -> Seq<char> {
        match self {
            DeezerError::Transport => "transport failure"@,
            DeezerError::Status(status) => "unsuccessful status "@ + decimal(status as nat),
            DeezerError::Decode => "undecodable body"@,
        }
    }

    /// A line of text that tells the three kinds apart and, for a status,
    /// names it.
    pub fn describe(&self) -> (text: String)
        ensures
            text@ == self.description(),
    {
        match self {
            DeezerError::Transport => String::from_str("transport failure"),
            DeezerError::Status(status) => {
                let mut text = String::from_str("unsuccessful status ");
                let number = u64_to_string(*status as u64);
                text.append(number.as_str());
                text
            },
            DeezerError::Decode => String::from_str("undecodable body"),
        }
    }
}

} // verus!
