//! The error taxonomy of the fetch pipeline.

use vstd::prelude::*;

verus! {

/// Everything that can go wrong during a run. No variant is recovered from
/// locally: each is propagated to the top level, wrapped with a description
/// of the operation that failed.
#[derive(Debug)]
pub enum FetchError {
    /// An invalid combination of command-line arguments: an edition id was
    /// supplied without an event handle.
    Usage,
    /// A request could not be sent or its body could not be read; the
    /// string describes the operation that failed.
    Transport(String),
    /// A response body did not match the expected schema.
    Deserialize(String),
    /// An event's edition list was empty when its latest edition was asked
    /// for; an event must have at least one edition.
    EmptyResult,
    /// A directory could not be created or a file could not be written.
    Io(String),
}

impl FetchError {
    /// A short human-readable description of the error, for the caller to
    /// print in its error chain.
    pub fn describe(&self) -> (r: String)
        ensures
            self is Usage ==> r@ == "cannot provide an edition id without an event handle"@,
            self matches FetchError::Transport(m) ==> r@ == "transport failure: "@ + m@,
            self matches FetchError::Deserialize(m) ==> r@ == "malformed response: "@ + m@,
            self is EmptyResult ==> r@ == "the event has no edition"@,
            self matches FetchError::Io(m) ==> r@ == "i/o failure: "@ + m@,
    {
        match self {
            FetchError::Usage => "cannot provide an edition id without an event handle".to_owned(),
            FetchError::Transport(m) => {
                let mut s = "transport failure: ".to_owned();
                s.append(m.as_str());
                s
            },
            FetchError::Deserialize(m) => {
                let mut s = "malformed response: ".to_owned();
                s.append(m.as_str());
                s
            },
            FetchError::EmptyResult => "the event has no edition".to_owned(),
            FetchError::Io(m) => {
                let mut s = "i/o failure: ".to_owned();
                s.append(m.as_str());
                s
            },
        }
    }
}

} // verus!
