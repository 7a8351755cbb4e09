//! The execution identity of the request that a turn is in.
use vstd::prelude::*;

use crate::account_transition;
use crate::account_transition::envelope_from_execution;
use crate::execution_auth::ExecutionAuthLease;
use crate::history::ResponseItem;
use crate::history::ResponseItemEnvelope;
use crate::sampling_attempt::TurnContext;

verus! {

/// Request-scoped execution identity of a turn. It is replaced immediately before each sampling
/// request, so that items keep the exact lease that produced them even if the pool rotates
/// meanwhile.
#[derive(Clone, Debug, PartialEq, Eq)]
pub struct SamplingExecutionProvenance {
    pub lease: ExecutionAuthLease,
}

impl SamplingExecutionProvenance {
    pub fn new(lease: ExecutionAuthLease) -> (provenance: Self)
        ensures
            provenance.lease == lease,
    {
        SamplingExecutionProvenance { lease }
    }

    pub fn lease(&self) -> (lease: &ExecutionAuthLease)
        ensures
            *lease == self.lease,
    {
        &self.lease
    }
}

pub fn set_sampling_execution_provenance(turn_context: &mut TurnContext, lease: ExecutionAuthLease)
    ensures
        *final(turn_context) == (TurnContext {
            execution_provenance: Some(SamplingExecutionProvenance { lease }),
            ..*old(turn_context)
        }),
{
    turn_context.execution_provenance = Some(SamplingExecutionProvenance::new(lease));
}

pub fn sampling_execution_provenance(turn_context: &TurnContext) -> (provenance: Option<
    SamplingExecutionProvenance,
>)
    ensures
        provenance == turn_context.execution_provenance,
{
    match &turn_context.execution_provenance {
        Some(provenance) => Some(SamplingExecutionProvenance::new(provenance.lease().copy())),
        None => None,
    }
}

/// The metadata under which an item of a turn is persisted.
pub open spec fn recorded_metadata(
    provenance: Option<SamplingExecutionProvenance>,
) -> Option<crate::history::CodexHarnessMetadata> {
    match provenance {
        Some(provenance) => account_transition::stamped(None, provenance.lease),
        None => None,
    }
}

/// The envelopes under which conversation items are persisted: stamped with the lease of the
/// sampling request that they came from, or unattributed outside of one.
pub fn record_conversation_items_with_execution_provenance(
    turn_context: &TurnContext,
    items: Vec<ResponseItem>,
) -> (recorded: Vec<ResponseItemEnvelope>)
    ensures
        recorded@.len() == items@.len(),
        forall|i: int|
            0 <= i < items@.len() ==> (#[trigger] recorded@[i]).item == items@[i]
                && recorded@[i].metadata == recorded_metadata(turn_context.execution_provenance),
{
    let mut recorded: Vec<ResponseItemEnvelope> = Vec::new();
    let ghost all = items@;
    for item in it: items
        invariant
            it.seq() == all,
            recorded@.len() == it.index(),
            forall|i: int|
                0 <= i < recorded@.len() ==> (#[trigger] recorded@[i]).item == all[i]
                    && recorded@[i].metadata == recorded_metadata(
                    turn_context.execution_provenance,
                ),
    {
        match &turn_context.execution_provenance {
            Some(provenance) => recorded.push(envelope_from_execution(item, provenance.lease())),
            None => recorded.push(ResponseItemEnvelope::new(item)),
        }
    }
    recorded
}

/// Items that a sampling request brought bear the profile and generation that it ran on, whatever is
/// active by the time they are persisted; items from outside a request, or from the stock login, bear
/// none.
pub proof fn law_items_bear_the_account_that_made_them(
    provenance: Option<SamplingExecutionProvenance>,
)
    ensures
        provenance is None ==> recorded_metadata(provenance) is None,
        provenance matches Some(made) ==> {
            &&& made.lease.account() is None ==> recorded_metadata(provenance) is None
            &&& made.lease.account() matches Some(account) ==> {
                let metadata = recorded_metadata(provenance);
                &&& metadata is Some
                &&& metadata->0.execution_profile_id == Some(account.profile_id)
                &&& metadata->0.execution_generation == Some(account.generation)
                &&& !metadata->0.client_authored
            }
        },
{
}

} // verus!
