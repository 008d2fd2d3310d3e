//! What the caller is asked to read from and write to its stores.

use vstd::prelude::*;

verus! {

/// A secret to look up in the secret store.
#[derive(Clone, Debug, PartialEq, Eq)]
pub struct SecretLookup {
    pub reference: String,
}

/// An object to read from the store.
#[derive(Clone, Debug, PartialEq, Eq)]
pub struct ObjectRead {
    pub bucket: String,
    pub key: String,
}

/// An object to write to the store, in place of what its key held. It has
/// no `Debug`: the body may hold a token.
#[derive(Clone, PartialEq, Eq)]
pub struct ObjectWrite {
    pub bucket: String,
    pub key: String,
    pub body: Vec<u8>,
}

/// What is stored, as a sequence of bytes.
pub open spec fn stored_bytes(stored: Option<&[u8]>) -> Option<Seq<u8>> {
    match stored {
        Some(bytes) => Some(bytes@),
        None => None,
    }
}

} // verus!
