use vstd::prelude::*;

verus! {

/// Carried by the error raised when a removal targets a key that the
/// store does not hold.
#[derive(Debug)]
pub struct KeyDoesNotExist {
    /// The key that the failed removal asked for.
    pub key: String,
}

/// The error kinds of the store.
///
/// `IOFailure` covers a resource that cannot be opened, created or
/// written; `DecodeFailure` covers content that cannot be parsed into a
/// string-to-string mapping of the selected format; `DuplicateKey` is
/// raised by a backend read that surfaces two rows with the same key.
#[derive(Debug)]
pub enum StoreError {
    IOFailure,
    DecodeFailure,
    KeyAlreadyExists,
    KeyDoesNotExist(KeyDoesNotExist),
    DuplicateKey,
}

} // verus!
