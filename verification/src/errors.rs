use vstd::prelude::*;

verus! {

/// The ways an operation on the disbursement ledger can fail.
///
/// Every failure aborts the whole operation: the contracts of the ledger's
/// methods guarantee that a call returning an error leaves the state exactly
/// as it was.
#[derive(Clone, Copy, PartialEq, Eq, Structural, Debug)]
pub enum LedgerError {
    /// `initialize` was called on a ledger that already holds an admin registry.
    AlreadyInitialized,
    /// An operation other than `initialize` was attempted before the ledger
    /// was initialized.
    NotInitialized,
    /// The caller did not authenticate as the identity the operation demands.
    Unauthorized,
    /// A claim was attempted by an account with no outstanding entitlement.
    /// This covers both "never registered" and "already claimed"; the two are
    /// indistinguishable on purpose, so that a claim's history does not leak.
    NotEligible,
    /// The underlying asset transfer could not be completed by the host.
    TransferFailed,
}

} // verus!
