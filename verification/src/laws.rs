//! The engine's laws, stated over [`StateView`] and proved once for all
//! states and operation sequences.

use crate::engine::{AccountId, Balance, Policy, StateView};
use vstd::prelude::*;

verus! {

/// One operation of the engine's mutating surface, with the identity that
/// calls it.
pub ghost enum Op {
    BuyPolicy { caller: AccountId, premium: Balance, payout: Balance },
    UpdateFloodLevel { caller: AccountId, new_level: u32 },
    TriggerPayout { caller: AccountId },
}

/// The state after one operation.
pub open spec fn step(s: StateView, op: Op) -> StateView {
    match op {
        Op::BuyPolicy { caller, premium, payout } => s.buy(caller, premium, payout),
        Op::UpdateFloodLevel { caller, new_level } => s.set_level(caller, new_level),
        Op::TriggerPayout { caller } => s.settle(caller),
    }
}

/// The state after a sequence of operations, applied first to last.
pub open spec fn steps(s: StateView, ops: Seq<Op>) -> StateView
    decreases ops.len(),
{
    if ops.len() == 0 {
        s
    } else {
        steps(step(s, ops[0]), ops.subrange(1, ops.len() as int))
    }
}

/// Ownership immutability: no sequence of operations changes the owner
/// captured at construction, nor the payout threshold fixed there.
pub proof fn lemma_owner_immutable(s: StateView, ops: Seq<Op>)
    ensures
        steps(s, ops).owner == s.owner,
        steps(s, ops).payout_threshold == s.payout_threshold,
    decreases ops.len(),
{
    if ops.len() > 0 {
        lemma_owner_immutable(step(s, ops[0]), ops.subrange(1, ops.len() as int));
    }
}

/// Authorization gate: a flood-level update by any identity other than the
/// owner leaves the whole state — the flood level included — unchanged.
/// (The executable operation reports an `AuthorizationError` on that path.)
pub proof fn lemma_auth_gate(s: StateView, caller: AccountId, new_level: u32)
    requires
        caller != s.owner,
    ensures
        s.set_level(caller, new_level) == s,
{
}

/// Monotonic payout flag: once a holder's policy is inactive, no sequence of
/// operations that does not repurchase for that holder ever makes it active
/// again.
pub proof fn lemma_payout_flag_monotonic(s: StateView, ops: Seq<Op>, holder: AccountId)
    requires
        s.policies.contains_key(holder),
        !s.policies[holder].active,
        forall|i: int|
            0 <= i < ops.len() ==> !((#[trigger] ops[i]) matches Op::BuyPolicy { caller, .. }
                && caller == holder),
    ensures
        steps(s, ops).policies.contains_key(holder),
        !steps(s, ops).policies[holder].active,
    decreases ops.len(),
{
    if ops.len() > 0 {
        lemma_payout_flag_monotonic(step(s, ops[0]), ops.subrange(1, ops.len() as int), holder);
    }
}

/// Idempotent settlement: immediately repeating a settlement attempt for the
/// same caller changes nothing and requests no transfer — whatever the first
/// attempt did, at most one transfer is ever requested for one purchase.
pub proof fn lemma_idempotent_settlement(s: StateView, caller: AccountId)
    ensures
        s.settle(caller).settle(caller) == s.settle(caller),
        s.settle(caller).settle_action(caller) == None::<Balance>,
{
}

/// Threshold inclusivity: a recorded, active policy is eligible exactly when
/// the flood level is at or above the threshold — at the threshold itself it
/// qualifies, one below it does not.
pub proof fn lemma_threshold_inclusive(s: StateView, holder: AccountId)
    requires
        s.policies.contains_key(holder),
        s.policies[holder].active,
    ensures
        s.flood_level >= s.payout_threshold ==> s.eligible(holder),
        s.flood_level < s.payout_threshold ==> !s.eligible(holder),
{
}

/// Purchase overwrite: after a buy, the holder's ledger entry is exactly the
/// new, active policy, whatever record stood there before; every other
/// holder's entry is untouched.
pub proof fn lemma_purchase_overwrite(
    s: StateView,
    caller: AccountId,
    premium: Balance,
    payout: Balance,
)
    ensures
        s.buy(caller, premium, payout).policies.contains_key(caller),
        s.buy(caller, premium, payout).policies[caller] == (Policy {
            holder: caller,
            premium,
            payout,
            active: true,
        }),
        forall|h: AccountId|
            h != caller ==> (#[trigger] s.buy(caller, premium, payout).policies.contains_key(h))
                == s.policies.contains_key(h),
        forall|h: AccountId|
            h != caller && s.policies.contains_key(h) ==> #[trigger] s.buy(
                caller,
                premium,
                payout,
            ).policies[h] == s.policies[h],
{
}

/// Ledger well-formedness is an invariant: every operation preserves the
/// fact that each policy is stored under its own holder's key.
pub proof fn lemma_wf_preserved(s: StateView, ops: Seq<Op>)
    requires
        s.wf(),
    ensures
        steps(s, ops).wf(),
    decreases ops.len(),
{
    if ops.len() > 0 {
        lemma_wf_preserved(step(s, ops[0]), ops.subrange(1, ops.len() as int));
    }
}

} // verus!
