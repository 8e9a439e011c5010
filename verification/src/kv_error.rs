//! The store's error taxonomy. Every failure is typed and recoverable: the
//! library never aborts on malformed input.

use vstd::prelude::*;
use vstd::string::StringExecFns;

verus! {

#[derive(Debug)]
pub enum KvError {
    /// A stored key could not be decoded or rendered.
    KeyDecodeError(String),
    /// Prefix, start and end were all set at once.
    InvalidSelector,
    /// The external payload serializer failed to encode a value.
    ValEncodeError(String),
    /// The external payload serializer failed to decode stored bytes.
    ValDecodeError(String),
    /// A stored value was not of the requested kind.
    ValDowncastError(String),
    /// The backend reported a failure of its own; opaque to the store.
    BackendError(String),
    /// Any other failure.
    Other(String),
}

pub type KvResult<T> = Result<T, KvError>;

impl KvError {
    /// The error described in words.
    pub fn message(&self) -> (s: String)
        ensures
            (match self {
                KvError::KeyDecodeError(d) => s@ == "Error decoding key: "@ + d@,
                KvError::InvalidSelector => s@
                    == "Invalid selector provided - Provide any one or two of start, end, prefix, not all"@,
                KvError::ValEncodeError(d) => s@ == "Error encoding value: "@ + d@,
                KvError::ValDecodeError(d) => s@ == "Error decoding value: "@ + d@,
                KvError::ValDowncastError(d) => s@ == "Error converting to KvValue: "@ + d@,
                KvError::BackendError(d) => s@ == "Backend error: "@ + d@,
                KvError::Other(d) => s@ == "Error during kv op: "@ + d@,
            }),
    {
        match self {
            KvError::KeyDecodeError(d) => {
                let mut s = String::from_str("Error decoding key: ");
                s.append(d.as_str());
                s
            },
            KvError::InvalidSelector => String::from_str(
                "Invalid selector provided - Provide any one or two of start, end, prefix, not all",
            ),
            KvError::ValEncodeError(d) => {
                let mut s = String::from_str("Error encoding value: ");
                s.append(d.as_str());
                s
            },
            KvError::ValDecodeError(d) => {
                let mut s = String::from_str("Error decoding value: ");
                s.append(d.as_str());
                s
            },
            KvError::ValDowncastError(d) => {
                let mut s = String::from_str("Error converting to KvValue: ");
                s.append(d.as_str());
                s
            },
            KvError::BackendError(d) => {
                let mut s = String::from_str("Backend error: ");
                s.append(d.as_str());
                s
            },
            KvError::Other(d) => {
                let mut s = String::from_str("Error during kv op: ");
                s.append(d.as_str());
                s
            },
        }
    }
}

} // verus!
