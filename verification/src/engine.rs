//! The settlement engine: the policy ledger, the oracle state and the
//! payout evaluator, with its abstract state [`StateView`].

use std::collections::HashMap;
use vstd::prelude::*;

verus! {

broadcast use vstd::std_specs::hash::group_hash_axioms;

/// An account identity supplied by the host; compared for equality and used
/// as the ledger key.
pub type AccountId = u64;

/// An unsigned currency amount. Amounts are stored and compared, never
/// combined arithmetically inside the engine.
pub type Balance = u128;

/// A holder's insurance record: the premium paid at purchase, the payout
/// promised at settlement, and whether the policy is still unsettled.
#[derive(Clone, Copy, Debug, PartialEq, Eq, Structural)]
pub struct Policy {
    pub holder: AccountId,
    pub premium: Balance,
    pub payout: Balance,
    pub active: bool,
}

/// Returned by [`Insuracle::update_flood_level`] when the caller is not the
/// owner; the call then leaves the engine unchanged.
#[derive(Clone, Copy, Debug, PartialEq, Eq, Structural)]
pub struct AuthorizationError;

/// The abstract state of the engine: the policy ledger as a map, the current
/// flood level, and the threshold and owner fixed at construction.
pub ghost struct StateView {
    pub policies: Map<AccountId, Policy>,
    pub flood_level: u32,
    pub payout_threshold: u32,
    pub owner: AccountId,
}

impl StateView {
    /// A holder's policy is eligible for settlement when it is recorded,
    /// still active, and the flood level has reached the threshold
    /// (inclusive: a level equal to the threshold qualifies).
    pub open spec fn eligible(self, holder: AccountId) -> bool {
        &&& self.policies.contains_key(holder)
        &&& self.policies[holder].active
        &&& self.flood_level >= self.payout_threshold
    }

    /// The state after a purchase: the caller's ledger entry is the fresh,
    /// active policy, whatever was recorded before.
    pub open spec fn buy(self, caller: AccountId, premium: Balance, payout: Balance) -> StateView {
        StateView {
            policies: self.policies.insert(
                caller,
                Policy { holder: caller, premium, payout, active: true },
            ),
            ..self
        }
    }

    /// The state after a flood-level update: the new level if the caller is
    /// the owner, otherwise the state unchanged.
    pub open spec fn set_level(self, caller: AccountId, new_level: u32) -> StateView {
        if caller == self.owner {
            StateView { flood_level: new_level, ..self }
        } else {
            self
        }
    }

    /// The state after a settlement attempt by `caller`: an eligible policy
    /// is marked inactive, and nothing else changes; otherwise the state is
    /// unchanged.
    pub open spec fn settle(self, caller: AccountId) -> StateView {
        if self.eligible(caller) {
            StateView {
                policies: self.policies.insert(
                    caller,
                    Policy { active: false, ..self.policies[caller] },
                ),
                ..self
            }
        } else {
            self
        }
    }

    /// The transfer a settlement attempt by `caller` requests from the host:
    /// the policy's payout if the policy is eligible, otherwise nothing.
    pub open spec fn settle_action(self, caller: AccountId) -> Option<Balance> {
        if self.eligible(caller) {
            Some(self.policies[caller].payout)
        } else {
            None
        }
    }

    /// Ledger well-formedness: every policy is stored under its own holder's
    /// key.
    pub open spec fn wf(self) -> bool {
        forall|h: AccountId|
            self.policies.contains_key(h) ==> (#[trigger] self.policies[h]).holder == h
    }
}

/// The settlement engine's storage: the policy ledger, the mutable flood
/// level, and the payout threshold and owner captured at construction.
pub struct Insuracle {
    pub policies: HashMap<AccountId, Policy>,
    pub flood_level: u32,
    pub payout_threshold: u32,
    pub owner: AccountId,
}

impl View for Insuracle {
    type V = StateView;

    open spec fn view(&self) -> StateView {
        StateView {
            policies: self.policies@,
            flood_level: self.flood_level,
            payout_threshold: self.payout_threshold,
            owner: self.owner,
        }
    }
}

impl Insuracle {
    /// Initializes the engine with the given payout threshold: the ledger is
    /// empty, the flood level is zero, and the constructing caller is
    /// captured, once and for all, as the owner.
    pub fn new(payout_threshold: u32, caller: AccountId) -> (engine: Self)
        ensures
            engine@ == (StateView {
                policies: Map::<AccountId, Policy>::empty(),
                flood_level: 0u32,
                payout_threshold,
                owner: caller,
            }),
            engine@.wf(),
    {
        Insuracle { policies: HashMap::new(), flood_level: 0, payout_threshold, owner: caller }
    }

    /// Records an active policy for `caller`, overwriting any prior record
    /// for that holder — active or not — with no merge and no error.
    /// `premium` is the value the host received attached to this call.
    pub fn buy_policy(&mut self, caller: AccountId, premium: Balance, payout: Balance)
        ensures
            final(self)@ == old(self)@.buy(caller, premium, payout),
    {
        let policy = Policy { holder: caller, premium, payout, active: true };
        self.policies.insert(caller, policy);
    }

    /// Sets the reported flood level, unconditionally replacing the previous
    /// value; only the owner may do so. A call by any other identity changes
    /// nothing and reports an [`AuthorizationError`].
    pub fn update_flood_level(&mut self, caller: AccountId, new_level: u32) -> (result: Result<
        (),
        AuthorizationError,
    >)
        ensures
            final(self)@ == old(self)@.set_level(caller, new_level),
            result is Ok <==> caller == old(self)@.owner,
    {
        if caller == self.owner {
            self.flood_level = new_level;
            Ok(())
        } else {
            Err(AuthorizationError)
        }
    }

    /// Attempts to settle the caller's own policy. When the policy is
    /// eligible — recorded, active, and the flood level at or above the
    /// threshold — it is marked inactive and the payout the host must
    /// transfer to the caller is returned. Otherwise (no policy, an inactive
    /// one, or a level below the threshold) this is a no-op: no error, no
    /// state change, no transfer requested.
    ///
    /// The ledger records the settlement whether or not the host's transfer
    /// then succeeds; a failed transfer is the host's to report.
    pub fn trigger_payout(&mut self, caller: AccountId) -> (transfer: Option<Balance>)
        ensures
            final(self)@ == old(self)@.settle(caller),
            transfer == old(self)@.settle_action(caller),
    {
        let found: Option<Policy> = match self.policies.get(&caller) {
            Some(p) => Some(*p),
            None => None,
        };
        if let Some(policy) = found {
            if policy.active && self.flood_level >= self.payout_threshold {
                let settled = Policy { active: false, ..policy };
                self.policies.insert(caller, settled);
                return Some(policy.payout);
            }
        }
        None
    }

    /// Looks up the policy recorded for `account`; never mutates. An absent
    /// record is an empty result, not an error.
    pub fn get_policy(&self, account: AccountId) -> (policy: Option<Policy>)
        ensures
            policy == (if self@.policies.contains_key(account) {
                Some(self@.policies[account])
            } else {
                None::<Policy>
            }),
    {
        match self.policies.get(&account) {
            Some(p) => Some(*p),
            None => None,
        }
    }

    /// Reads the current flood level; never mutates.
    pub fn get_flood_level(&self) -> (level: u32)
        ensures
            level == self@.flood_level,
    {
        self.flood_level
    }
}

} // verus!
