//! Command-level errors.
//!
//! Every failure of a single command is caught at the dispatcher boundary and
//! reported to the peer as an `{err: message}` envelope; no command error
//! aborts the bridge loop. `message` pins the exact text of each variant.

use vstd::prelude::*;
use crate::json::{dec_str, dec_text, quoted, quoted_text};

verus! {

/// The error of one failed command.
#[derive(Debug, PartialEq, Eq)]
pub enum Error {
    /// An operating-system I/O failure, carrying the OS's own description.
    IoError(String),
    /// A JSON encoding or decoding failure, as the codec described it.
    JsonError(String),
    /// A path or OS string that is not representable as text; carries the
    /// lossy rendering of the offending value.
    InvalidString(String),
    /// A registry handle that was never registered or was already consumed.
    InvalidProcessorId(u32),
}

/// The message text of each error variant.
pub open spec fn message_chars(e: Error) -> Seq<char> {
    match e {
        Error::IoError(s) => s@,
        Error::JsonError(s) => "json error: "@ + s@,
        Error::InvalidString(s) => "invalid string: "@ + quoted(s@),
        Error::InvalidProcessorId(id) => "invalid processor id: "@ + dec_str(id as nat),
    }
}

impl Error {
    /// The message reported to the peer for this error.
    pub fn message(&self) -> (r: String)
        ensures
            r@ == message_chars(*self),
    {
        match self {
            Error::IoError(s) => s.clone(),
            Error::JsonError(s) => {
                let mut m = String::new();
                m.append("json error: ");
                m.append(s.as_str());
                m
            },
            Error::InvalidString(s) => {
                let mut m = String::new();
                m.append("invalid string: ");
                m.append(quoted_text(s.as_str()).as_str());
                m
            },
            Error::InvalidProcessorId(id) => {
                let mut m = String::new();
                m.append("invalid processor id: ");
                m.append(dec_text(*id as u64).as_str());
                m
            },
        }
    }
}

} // verus!
