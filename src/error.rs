//! Errors of the pending transaction lifecycle.
use vstd::prelude::*;

verus! {

/// Why an operation on a pending transaction failed.
#[derive(Debug, PartialEq, Eq)]
pub enum PendingError {
    /// `try_sign` was called with no signer bound: a misuse, not a transient
    /// condition.
    MissingSigner,
    /// A second commit of one instance: commit and the outgoing notification
    /// must stay one to one, so a correct caller never triggers it.
    DoubleCommit,
    /// The transaction body and the UTXO entries that it spends differ in
    /// number.
    InputCountMismatch { inputs: usize, entries: usize },
    /// The private key at this position is not a valid secp256k1 secret key.
    InvalidPrivateKey { index: usize },
    /// The bound signer failed; its message is passed on unchanged.
    Signer(String),
}

} // verus!
