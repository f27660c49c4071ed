//! The entity itself: the holder of the operating policy.

use crate::error::SEError;
use crate::shared::{FeeInfoView, StateEntityFeeInfoAPI};
use vstd::prelude::*;

verus! {

/// A statechain entity that is ready to serve. It holds a snapshot of the
/// operating policy, and the snapshot can be enforced: an entity without such
/// a policy cannot be made.
pub struct StateChainEntity {
    fee_info: StateEntityFeeInfoAPI,
}

impl StateChainEntity {
    /// The policy that the entity holds.
    pub closed spec fn policy(&self) -> FeeInfoView {
        self.fee_info@
    }

    /// What holds of every entity: its policy can be enforced.
    #[verifier::type_invariant]
    pub open spec fn wf(&self) -> bool {
        self.policy().consistent()
    }

    /// Starts an entity on the policy that was read for it.
    ///
    /// Without a policy, or with one that cannot be enforced, there is no
    /// entity, and so no service.
    pub fn load(policy: Option<StateEntityFeeInfoAPI>) -> (loaded: Result<StateChainEntity, SEError>)
        ensures
            match loaded {
                Ok(entity) => {
                    &&& policy matches Some(given)
                    &&& given@.consistent()
                    &&& entity.policy() == given@
                    &&& entity.wf()
                },
                Err(error) => {
                    &&& error == SEError::PolicyUninitialized
                    &&& policy matches Some(given) ==> !given@.consistent()
                },
            },
    {
        match policy {
            Some(given) => {
                if given.is_consistent() {
                    Ok(StateChainEntity { fee_info: given })
                } else {
                    Err(SEError::PolicyUninitialized)
                }
            },
            None => Err(SEError::PolicyUninitialized),
        }
    }

    /// Replaces the snapshot by `policy`, whole. A policy that cannot be
    /// enforced is refused, and the entity keeps the one it has.
    pub fn reload(&mut self, policy: StateEntityFeeInfoAPI) -> (reloaded: Result<(), SEError>)
        ensures
            final(self).wf(),
            match reloaded {
                Ok(()) => policy@.consistent() && final(self).policy() == policy@,
                Err(error) => {
                    &&& error == SEError::PolicyUninitialized
                    &&& !policy@.consistent()
                    &&& final(self).policy() == old(self).policy()
                },
            },
    {
        proof {
            use_type_invariant(&*self);
        }
        if policy.is_consistent() {
            self.fee_info = policy;
            Ok(())
        } else {
            Err(SEError::PolicyUninitialized)
        }
    }

    /// A copy of the snapshot.
    pub fn fee_info(&self) -> (policy: StateEntityFeeInfoAPI)
        ensures
            policy@ == self.policy(),
            policy@.consistent(),
    {
        proof {
            use_type_invariant(self);
        }
        self.fee_info.clone()
    }
}

} // verus!
