use vstd::prelude::*;

use crate::errors::LedgerError;
use crate::ledger::spec_claim;
use crate::ledger::spec_fund;
use crate::ledger::spec_initialize;
use crate::ledger::spec_set_eligible;
use crate::ledger::LedgerState;
use crate::transfer::Party;
use crate::transfer::TransferRequest;

verus! {

/// Law: initialization happens once.  On a fresh ledger `initialize`
/// succeeds and stores the given admin and reward asset; any second
/// `initialize`, whatever its arguments, fails with `AlreadyInitialized` and
/// leaves the state of the first call untouched.
pub proof fn lemma_single_initialization(
    pre: LedgerState,
    admin1: u64,
    asset1: u64,
    admin2: u64,
    asset2: u64,
)
    requires
        !pre.is_initialized(),
    ensures
        ({
            let (post, r) = spec_initialize(pre, admin1, asset1);
            &&& r == Ok::<(), LedgerError>(())
            &&& post.is_initialized()
            &&& post.admin() == admin1
            &&& post.reward_asset() == asset1
            &&& spec_initialize(post, admin2, asset2) == (
                post,
                Err::<(), LedgerError>(LedgerError::AlreadyInitialized),
            )
        }),
{
}

/// Law: authorization gating.  `set_eligible` succeeds exactly when the
/// ledger is initialized and the caller is the stored admin; a call by any
/// other identity on an initialized ledger fails with `Unauthorized` and
/// leaves the eligibility table, and everything else, unchanged.
pub proof fn lemma_authorization_gating(pre: LedgerState, caller: u64, user: u64, amount: i128)
    ensures
        spec_set_eligible(pre, caller, user, amount).1 is Ok <==> pre.is_initialized() && caller
            == pre.admin(),
        pre.is_initialized() && caller != pre.admin() ==> spec_set_eligible(
            pre,
            caller,
            user,
            amount,
        ) == (pre, Err::<(), LedgerError>(LedgerError::Unauthorized)),
{
}

/// Law: at-most-once claim.  When `user` holds an entitlement of some amount
/// on an initialized ledger, its own claim succeeds and requests the payout
/// of exactly that amount from custody to `user`, every other entitlement
/// staying as it was; after that, a repeated claim by `user` fails with
/// `NotEligible` and changes nothing.  The entitlement is consumed by the
/// first claim alone.
pub proof fn lemma_at_most_once_claim(pre: LedgerState, user: u64)
    requires
        pre.is_initialized(),
        pre.eligible.contains_key(user),
    ensures
        ({
            let (post, r) = spec_claim(pre, user, user);
            &&& r == Ok::<TransferRequest, LedgerError>(
                TransferRequest {
                    asset: pre.reward_asset(),
                    from: Party::Custody,
                    to: Party::Account(user),
                    amount: pre.eligible[user],
                },
            )
            &&& !post.eligible.contains_key(user)
            &&& forall|v: u64|
                v != user ==> post.eligible.contains_key(v) == pre.eligible.contains_key(v)
            &&& forall|v: u64|
                v != user && pre.eligible.contains_key(v) ==> post.eligible[v] == pre.eligible[v]
            &&& spec_claim(post, user, user) == (
                post,
                Err::<TransferRequest, LedgerError>(LedgerError::NotEligible),
            )
        }),
{
}

/// Law: claim without eligibility.  A claim by an account with no entry in
/// the eligibility table of an initialized ledger fails with `NotEligible`,
/// requests no transfer, and returns the state unchanged.
pub proof fn lemma_claim_without_eligibility(pre: LedgerState, user: u64)
    requires
        pre.is_initialized(),
        !pre.eligible.contains_key(user),
    ensures
        spec_claim(pre, user, user) == (
            pre,
            Err::<TransferRequest, LedgerError>(LedgerError::NotEligible),
        ),
{
}

/// Law: funding grants no eligibility.  Whatever `fund` is called with and
/// however it ends, the durable state — in particular the eligibility table —
/// is exactly what it was: no beneficiary becomes claimable because money
/// arrived.
pub proof fn lemma_fund_grants_no_eligibility(
    pre: LedgerState,
    caller: u64,
    funder: u64,
    amount: i128,
)
    ensures
        spec_fund(pre, caller, funder, amount).0 == pre,
        forall|u: u64|
            spec_fund(pre, caller, funder, amount).0.eligible.contains_key(u)
                == pre.eligible.contains_key(u),
{
}

/// Law: re-registration overwrites.  Two `set_eligible` calls by the admin
/// for the same beneficiary, with no claim in between, leave exactly one
/// entitlement for that beneficiary, valued at the second amount: the first
/// amount is discarded, not added, and no other account's standing moves.
pub proof fn lemma_re_eligibility_overwrite(
    pre: LedgerState,
    caller: u64,
    user: u64,
    amount1: i128,
    amount2: i128,
)
    requires
        pre.is_initialized(),
        caller == pre.admin(),
    ensures
        ({
            let (mid, r1) = spec_set_eligible(pre, caller, user, amount1);
            let (post, r2) = spec_set_eligible(mid, caller, user, amount2);
            &&& r1 == Ok::<(), LedgerError>(())
            &&& r2 == Ok::<(), LedgerError>(())
            &&& post.eligible == pre.eligible.insert(user, amount2)
            &&& post.eligible.contains_key(user)
            &&& post.eligible[user] == amount2
        }),
{
    assert(pre.eligible.insert(user, amount1).insert(user, amount2) =~= pre.eligible.insert(
        user,
        amount2,
    ));
}

} // verus!
