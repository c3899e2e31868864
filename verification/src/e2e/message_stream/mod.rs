//! Streams of end-to-end messages: their errors and the framing of the raw JSON stream

pub mod raw_json;

use vstd::prelude::*;

verus! {

/// Error that can occur in message streams (eg I/O errors), described in words
#[derive(Debug, Clone)]
pub struct MessageStreamError {
    pub description: String,
}

impl MessageStreamError {
    /// An error with the given description
    pub fn new(description: String) -> (r: Self)
        ensures
            r.description@ == description@,
    {
        MessageStreamError { description }
    }
}

} // verus!
