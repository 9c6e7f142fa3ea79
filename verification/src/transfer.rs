use vstd::prelude::*;

verus! {

/// One side of an asset transfer: either an external account, named by its
/// identity, or the ledger's own custodial account, whose concrete address
/// only the host environment knows.
#[derive(Clone, Copy, PartialEq, Eq, Structural, Debug)]
pub enum Party {
    /// An external account, identified by the host's authentication scheme.
    Account(u64),
    /// The ledger's own custody, which pools the funds backing future claims.
    Custody,
}

/// A request that the host move `amount` of the asset `asset` from `from` to
/// `to` on the external asset ledger.
///
/// The ledger never inspects balances; it only issues these requests and is
/// told by the host whether they succeeded.
#[derive(Clone, Copy, PartialEq, Eq, Structural, Debug)]
pub struct TransferRequest {
    /// The identity of the fungible asset to move.
    pub asset: u64,
    /// The side the amount is taken from.
    pub from: Party,
    /// The side the amount is given to.
    pub to: Party,
    /// How much of the asset to move.
    pub amount: i128,
}

} // verus!
