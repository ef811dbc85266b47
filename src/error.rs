//! Why processing one package failed.
use vstd::prelude::*;

verus! {

/// The failures that end the processing of one package.
#[derive(Clone, Debug, PartialEq, Eq)]
pub enum UpdateError {
    /// An update key without a `:` separator.
    InvalidFormat,
    /// A source kind that is not implemented, or a key with a subkey.
    Unsupported(String),
    /// No matching release asset, or more than one.
    Ambiguous(String),
    /// A backup entry or an extraction target that is already there.
    AlreadyExists(String),
    /// A remote response or page of an unexpected shape, or an unreadable archive.
    Malformed(String),
    /// A failed request.
    Transport(String),
    /// A filesystem entry that is neither a file nor a directory.
    NotAFileOrDir(String),
}

} // verus!
