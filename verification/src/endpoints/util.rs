//! Queries about the entity.

use crate::error::SEError;
use crate::server::StateChainEntity;
use crate::shared::StateEntityFeeInfoAPI;
use vstd::prelude::*;

verus! {

/// Whether `fees` is what a query for the operating policy of `sc_entity`
/// answers: a copy of the snapshot that the entity holds.
pub open spec fn answers_policy_of(
    sc_entity: &StateChainEntity,
    fees: Result<StateEntityFeeInfoAPI, SEError>,
) -> bool {
    fees matches Ok(policy) && policy@ == sc_entity.policy()
}

/// Get statechain entity operating information.
///
/// The query reads and changes nothing. It cannot fail: an entity always
/// holds a policy, and one that can be enforced.
pub fn get_fees(sc_entity: &StateChainEntity) -> (fees: Result<StateEntityFeeInfoAPI, SEError>)
    ensures
        answers_policy_of(sc_entity, fees),
        fees matches Ok(policy) && policy.initlock > 0 && policy.interval > 0 && policy.withdraw
            >= 0,
{
    Ok(sc_entity.fee_info())
}

/// Asked twice of the same entity, the query gives the same answer twice.
pub proof fn lemma_reads_agree(
    sc_entity: &StateChainEntity,
    first: Result<StateEntityFeeInfoAPI, SEError>,
    second: Result<StateEntityFeeInfoAPI, SEError>,
)
    requires
        answers_policy_of(sc_entity, first),
        answers_policy_of(sc_entity, second),
    ensures
        first matches Ok(one) && second matches Ok(other) && one@ == other@,
{
}

} // verus!
