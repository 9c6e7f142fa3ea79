use std::collections::HashMap;

use vstd::prelude::*;

use crate::errors::LedgerError;
use crate::transfer::Party;
use crate::transfer::TransferRequest;

verus! {

broadcast use vstd::std_specs::hash::group_hash_axioms;

/// The admin registry: the single administrator identity and the identity of
/// the asset awards are paid in.  Written once by `initialize`, immutable
/// afterwards.
#[derive(Clone, Copy, PartialEq, Eq, Structural, Debug)]
pub struct AdminRegistry {
    /// The only identity allowed to register beneficiaries.
    pub admin: u64,
    /// The fungible asset every award is denominated in.
    pub reward_asset: u64,
}

/// The mathematical model of the ledger's durable state: the admin registry,
/// if initialization has happened, and the table of outstanding entitlements.
#[verifier::ext_equal]
pub struct LedgerState {
    /// `None` before `initialize` has succeeded, `Some` forever after.
    pub registry: Option<AdminRegistry>,
    /// Maps each eligible beneficiary to the amount it may still claim.
    /// A key being absent means "not eligible or already claimed".
    pub eligible: Map<u64, i128>,
}

impl LedgerState {
    /// Whether `initialize` has succeeded on this state.
    pub open spec fn is_initialized(self) -> bool {
        self.registry is Some
    }

    /// The administrator identity; meaningful only once initialized.
    pub open spec fn admin(self) -> u64
        recommends
            self.is_initialized(),
    {
        self.registry->0.admin
    }

    /// The award asset identity; meaningful only once initialized.
    pub open spec fn reward_asset(self) -> u64
        recommends
            self.is_initialized(),
    {
        self.registry->0.reward_asset
    }

    /// Well-formedness of the durable state: every outstanding entitlement is
    /// positive, and before initialization the eligibility table does not
    /// exist yet, which the model renders as the empty table.
    pub open spec fn wf(self) -> bool {
        &&& forall|u: u64| self.eligible.contains_key(u) ==> self.eligible[u] > 0
        &&& !self.is_initialized() ==> self.eligible == Map::<u64, i128>::empty()
    }
}

/// The transition `initialize` makes on the durable state: on a fresh ledger
/// it writes the registry and creates the empty eligibility table; on an
/// initialized ledger it changes nothing and reports `AlreadyInitialized`.
pub open spec fn spec_initialize(pre: LedgerState, admin: u64, reward_asset: u64) -> (
    LedgerState,
    Result<(), LedgerError>,
) {
    if pre.is_initialized() {
        (pre, Err(LedgerError::AlreadyInitialized))
    } else {
        (
            LedgerState {
                registry: Some(AdminRegistry { admin, reward_asset }),
                eligible: Map::<u64, i128>::empty(),
            },
            Ok(()),
        )
    }
}

/// The transition `fund` makes: it never touches the durable state; when the
/// caller is the funder and the ledger is initialized it asks the host to move
/// `amount` of the reward asset from the funder into the ledger's custody.
pub open spec fn spec_fund(pre: LedgerState, caller: u64, funder: u64, amount: i128) -> (
    LedgerState,
    Result<TransferRequest, LedgerError>,
) {
    if caller != funder {
        (pre, Err(LedgerError::Unauthorized))
    } else if !pre.is_initialized() {
        (pre, Err(LedgerError::NotInitialized))
    } else {
        (
            pre,
            Ok(
                TransferRequest {
                    asset: pre.reward_asset(),
                    from: Party::Account(funder),
                    to: Party::Custody,
                    amount,
                },
            ),
        )
    }
}

/// The transition `set_eligible` makes: when the caller is the stored admin of
/// an initialized ledger, the entitlement of `user` becomes exactly `amount`,
/// overwriting any earlier value; otherwise nothing changes.
pub open spec fn spec_set_eligible(pre: LedgerState, caller: u64, user: u64, amount: i128) -> (
    LedgerState,
    Result<(), LedgerError>,
) {
    if !pre.is_initialized() {
        (pre, Err(LedgerError::NotInitialized))
    } else if caller != pre.admin() {
        (pre, Err(LedgerError::Unauthorized))
    } else {
        (
            LedgerState { registry: pre.registry, eligible: pre.eligible.insert(user, amount) },
            Ok(()),
        )
    }
}

/// The transition `claim_schoolarship` makes: when the caller is `user`, the
/// ledger is initialized and `user` holds an entitlement, the entry is removed
/// and the host is asked to pay the entitled amount out of custody.  The
/// removal is part of the same transition that issues the payout request:
/// a second claim can never observe the entry again.
pub open spec fn spec_claim(pre: LedgerState, caller: u64, user: u64) -> (
    LedgerState,
    Result<TransferRequest, LedgerError>,
) {
    if caller != user {
        (pre, Err(LedgerError::Unauthorized))
    } else if !pre.is_initialized() {
        (pre, Err(LedgerError::NotInitialized))
    } else if !pre.eligible.contains_key(user) {
        (pre, Err(LedgerError::NotEligible))
    } else {
        (
            LedgerState { registry: pre.registry, eligible: pre.eligible.remove(user) },
            Ok(
                TransferRequest {
                    asset: pre.reward_asset(),
                    from: Party::Custody,
                    to: Party::Account(user),
                    amount: pre.eligible[user],
                },
            ),
        )
    }
}

/// The transition `settle_claim` makes: a successful payout leaves the state
/// alone; a failed payout rolls the claim back, restoring the entitlement that
/// the claim removed, and reports `TransferFailed`.
pub open spec fn spec_settle_claim(pre: LedgerState, user: u64, amount: i128, transfer_ok: bool) -> (
    LedgerState,
    Result<(), LedgerError>,
) {
    if transfer_ok {
        (pre, Ok(()))
    } else {
        (
            LedgerState { registry: pre.registry, eligible: pre.eligible.insert(user, amount) },
            Err(LedgerError::TransferFailed),
        )
    }
}

/// The disbursement ledger.  One value of this type is the whole durable
/// state the host persists between invocations; every operation is one
/// atomic transition on it.
///
/// The host environment is a collaborator, not part of the ledger: it
/// authenticates callers before handing their identity in, it performs the
/// asset transfers the ledger requests, and it reports how they went.  The
/// ledger's contracts state the outcome of every operation for every such
/// report.
pub struct Contract {
    registry: Option<AdminRegistry>,
    eligible: HashMap<u64, i128>,
}

impl View for Contract {
    type V = LedgerState;

    closed spec fn view(&self) -> LedgerState {
        LedgerState { registry: self.registry, eligible: self.eligible@ }
    }
}

impl Contract {
    /// Creates the durable state of a fresh deployment: not initialized, no
    /// entitlement outstanding.
    pub fn new() -> (c: Contract)
        ensures
            c@ == (LedgerState { registry: None, eligible: Map::<u64, i128>::empty() }),
            c@.wf(),
    {
        Contract { registry: None, eligible: HashMap::new() }
    }

    /// Establishes the admin registry: stores `admin` as the single
    /// administrator and `reward_asset` as the award asset, and creates the
    /// empty eligibility table.  Fails with `AlreadyInitialized`, changing
    /// nothing, if a registry already exists; no operation ever changes the
    /// registry afterwards.  The caller itself is not authenticated:
    /// deployment-time initialization is trusted to be a one-time, privileged
    /// action of the deployer.
    pub fn initialize(&mut self, admin: u64, reward_asset: u64) -> (r: Result<(), LedgerError>)
        requires
            old(self)@.wf(),
        ensures
            final(self)@.wf(),
            (final(self)@, r) == spec_initialize(old(self)@, admin, reward_asset),
    {
        if self.registry.is_some() {
            return Err(LedgerError::AlreadyInitialized);
        }
        self.registry = Some(AdminRegistry { admin, reward_asset });
        Ok(())
    }

    /// Moves `amount` of the reward asset from `funder` into the ledger's
    /// custody, growing the pool that backs future claims.  The caller must
    /// be the funder itself; the eligibility table is never touched.  The
    /// returned request is handed to the host, which performs the transfer
    /// and whose failure, if any, is the operation's failure.
    pub fn fund(&mut self, caller: u64, funder: u64, amount: i128) -> (r: Result<
        TransferRequest,
        LedgerError,
    >)
        requires
            old(self)@.wf(),
        ensures
            final(self)@.wf(),
            (final(self)@, r) == spec_fund(old(self)@, caller, funder, amount),
    {
        if caller != funder {
            return Err(LedgerError::Unauthorized);
        }
        let reg = match self.registry {
            Some(reg) => reg,
            None => {
                return Err(LedgerError::NotInitialized);
            },
        };
        Ok(
            TransferRequest {
                asset: reg.reward_asset,
                from: Party::Account(funder),
                to: Party::Custody,
                amount,
            },
        )
    }

    /// Registers `user` as entitled to claim exactly `amount` of the reward
    /// asset, overwriting any earlier entitlement of `user`.  Only the stored
    /// admin may do this; no transfer happens, the call merely authorizes a
    /// future claim.  Amounts are positive: an entry in the table always
    /// stands for something still claimable.
    pub fn set_eligible(&mut self, caller: u64, user: u64, amount: i128) -> (r: Result<
        (),
        LedgerError,
    >)
        requires
            old(self)@.wf(),
            amount > 0,
        ensures
            final(self)@.wf(),
            (final(self)@, r) == spec_set_eligible(old(self)@, caller, user, amount),
    {
        let reg = match self.registry {
            Some(reg) => reg,
            None => {
                return Err(LedgerError::NotInitialized);
            },
        };
        if caller != reg.admin {
            return Err(LedgerError::Unauthorized);
        }
        self.eligible.insert(user, amount);
        proof {
            assert forall|u: u64| self.eligible@.contains_key(u) implies self.eligible@[u] > 0 by {
                if u != user {
                    assert(old(self)@.eligible.contains_key(u));
                }
            }
        }
        Ok(())
    }

    /// Consumes the entitlement of `user`: removes the table entry and asks
    /// the host to pay the entitled amount from custody to `user`.  The
    /// caller must be `user` itself.  The entry is gone from the state before
    /// the payout request is handed out — claim-then-pay ordering — so a
    /// re-entered claim fails closed with `NotEligible`, which is also what a
    /// never-registered account gets: the two cases are indistinguishable on
    /// purpose.
    pub fn claim_schoolarship(&mut self, caller: u64, user: u64) -> (r: Result<
        TransferRequest,
        LedgerError,
    >)
        requires
            old(self)@.wf(),
        ensures
            final(self)@.wf(),
            (final(self)@, r) == spec_claim(old(self)@, caller, user),
    {
        if caller != user {
            return Err(LedgerError::Unauthorized);
        }
        let reg = match self.registry {
            Some(reg) => reg,
            None => {
                return Err(LedgerError::NotInitialized);
            },
        };
        let removed = self.eligible.remove(&user);
        proof {
            assert forall|u: u64| self.eligible@.contains_key(u) implies self.eligible@[u] > 0 by {
                assert(old(self)@.eligible.contains_key(u));
            }
        }
        match removed {
            Some(amount) => Ok(
                TransferRequest {
                    asset: reg.reward_asset,
                    from: Party::Custody,
                    to: Party::Account(user),
                    amount,
                },
            ),
            None => Err(LedgerError::NotEligible),
        }
    }

    /// Records the host's report on the payout a claim requested.  A
    /// successful payout completes the claim and changes nothing further; a
    /// failed payout rolls the whole claim back: the entitlement that the
    /// claim removed is restored, and the operation as a whole fails with
    /// `TransferFailed`.  `user` and `amount` are the beneficiary and amount
    /// of the claim's own payout request, so the ledger is initialized and
    /// the amount positive.
    pub fn settle_claim(&mut self, user: u64, amount: i128, transfer_ok: bool) -> (r: Result<
        (),
        LedgerError,
    >)
        requires
            old(self)@.wf(),
            old(self)@.is_initialized(),
            amount > 0,
        ensures
            final(self)@.wf(),
            (final(self)@, r) == spec_settle_claim(old(self)@, user, amount, transfer_ok),
    {
        if transfer_ok {
            Ok(())
        } else {
            self.eligible.insert(user, amount);
            proof {
                assert forall|u: u64| self.eligible@.contains_key(u) implies self.eligible@[u]
                    > 0 by {
                    if u != user {
                        assert(old(self)@.eligible.contains_key(u));
                    }
                }
            }
            Err(LedgerError::TransferFailed)
        }
    }

    /// Whether `initialize` has succeeded on this ledger.
    pub fn is_initialized(&self) -> (r: bool)
        ensures
            r == self@.is_initialized(),
    {
        self.registry.is_some()
    }

    /// The stored administrator identity, once initialized.
    pub fn admin(&self) -> (r: Option<u64>)
        ensures
            r == (if self@.is_initialized() {
                Some(self@.admin())
            } else {
                None::<u64>
            }),
    {
        match self.registry {
            Some(reg) => Some(reg.admin),
            None => None,
        }
    }

    /// The stored award asset identity, once initialized.
    pub fn reward_asset(&self) -> (r: Option<u64>)
        ensures
            r == (if self@.is_initialized() {
                Some(self@.reward_asset())
            } else {
                None::<u64>
            }),
    {
        match self.registry {
            Some(reg) => Some(reg.reward_asset),
            None => None,
        }
    }

    /// The amount `user` may still claim, if any.
    pub fn eligible_amount(&self, user: u64) -> (r: Option<i128>)
        ensures
            r == (if self@.eligible.contains_key(user) {
                Some(self@.eligible[user])
            } else {
                None::<i128>
            }),
    {
        match self.eligible.get(&user) {
            Some(amount) => Some(*amount),
            None => None,
        }
    }

    /// How many beneficiaries currently hold an outstanding entitlement.
    pub fn eligible_count(&self) -> (r: usize)
        ensures
            r == self@.eligible.len(),
    {
        self.eligible.len()
    }

    /// The greeting utility: maps `to` to the two-element sequence
    /// `["Hello", to]`.  Stateless, and no part of the disbursement protocol.
    pub fn hello(to: String) -> (r: Vec<String>)
        ensures
            r@.len() == 2,
            r@[0]@ == "Hello"@,
            r@[1]@ == to@,
    {
        let mut greeting: Vec<String> = Vec::new();
        greeting.push(String::from_str("Hello"));
        greeting.push(to);
        greeting
    }
}

} // verus!
