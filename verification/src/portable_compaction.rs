//! Compaction that stays readable for every account, and the projection of history for a binding.
use vstd::prelude::*;

use crate::account_transition::AccountHistoryTransition;
use crate::account_transition::AccountHistoryTransitionError;
use crate::account_transition::AccountHistoryTransitionStats;
use crate::execution_auth::ExecutionAuthBinding;
use crate::execution_auth::ExecutionAuthMode;
use crate::history::ResponseItem;
use crate::history::ResponseItemEnvelope;
use crate::text;

verus! {

/// Which kind of compaction a history calls for.
#[derive(Clone, Copy, Debug, PartialEq, Eq, Structural)]
pub enum PortableCompactionPolicy {
    Stock,
    Portable,
}

/// The transition to the account of a binding.
pub open spec fn transition_for(
    legacy_unattributed_profile_id: Option<String>,
    execution_binding: ExecutionAuthBinding,
) -> AccountHistoryTransition {
    match execution_binding {
        ExecutionAuthBinding::Stock => AccountHistoryTransition {
            target_profile_id: None,
            target_generation: 0,
            legacy_unattributed_profile_id: None,
        },
        ExecutionAuthBinding::Pooled(lease) => AccountHistoryTransition {
            target_profile_id: lease.spec_profile_id(),
            target_generation: lease.spec_generation(),
            legacy_unattributed_profile_id,
        },
    }
}

/// Projects history into the items of a request on a binding. Beside the items stands what the
/// projection removed, for [`trace_projection`].
pub fn project_history_for_execution(
    legacy_unattributed_profile_id: Option<String>,
    execution_binding: &ExecutionAuthBinding,
    history: Vec<ResponseItemEnvelope>,
) -> (projected: Result<
    (Vec<ResponseItem>, AccountHistoryTransitionStats),
    AccountHistoryTransitionError,
>)
    ensures
        ({
            let transition = transition_for(legacy_unattributed_profile_id, *execution_binding);
            match projected {
                Ok((items, stats)) => {
                    &&& transition.blocker(history@) is None
                    &&& items@.len() == transition.kept(history@).len()
                    &&& forall|i: int|
                        0 <= i < items@.len() ==> transition.is_projection(
                            transition.kept(history@)[i],
                            #[trigger] items@[i],
                        )
                    &&& stats == transition.stats_of(history@)
                },
                Err(error) => {
                    &&& transition.blocker(history@) is Some
                    &&& error == (AccountHistoryTransitionError::OpaqueCompaction {
                        source_profile_id: transition.source(
                            history@[transition.blocker(history@)->0],
                        ),
                        target_profile_id: transition.target_profile_id,
                    })
                },
            }
        }),
{
    let transition = match execution_binding {
        ExecutionAuthBinding::Stock => AccountHistoryTransition::stock(),
        ExecutionAuthBinding::Pooled(lease) => AccountHistoryTransition::pooled(
            lease,
            legacy_unattributed_profile_id,
        ),
    };
    transition.prepare_for_request(history)
}

/// What is logged of a projection: the account that it was made for, and what it removed.
#[derive(Clone, Debug, PartialEq, Eq)]
pub struct ProjectionTrace {
    pub target_profile_id: String,
    pub target_generation: u64,
    pub stats: AccountHistoryTransitionStats,
}

/// How the account of a binding is called in a log.
pub open spec fn traced_profile(execution_binding: ExecutionAuthBinding) -> Seq<char> {
    match execution_binding {
        ExecutionAuthBinding::Stock => "<stock>"@,
        ExecutionAuthBinding::Pooled(lease) => text::text_or(
            lease.spec_profile_id(),
            "<legacy>"@,
        ),
    }
}

/// What has to be logged of a projection; nothing where it removed nothing.
pub fn trace_projection(
    execution_binding: &ExecutionAuthBinding,
    stats: AccountHistoryTransitionStats,
) -> (trace: Option<ProjectionTrace>)
    ensures
        match trace {
            Some(trace) => {
                &&& stats != AccountHistoryTransitionStats::none()
                &&& trace.target_profile_id@ == traced_profile(*execution_binding)
                &&& trace.target_generation == (match *execution_binding {
                    ExecutionAuthBinding::Stock => 0,
                    ExecutionAuthBinding::Pooled(lease) => lease.spec_generation(),
                })
                &&& trace.stats == stats
            },
            None => stats == AccountHistoryTransitionStats::none(),
        },
{
    if stats == AccountHistoryTransitionStats::default() {
        return None;
    }
    let (target_profile_id, target_generation): (String, u64) = match execution_binding {
        ExecutionAuthBinding::Stock => ("<stock>".to_owned(), 0),
        ExecutionAuthBinding::Pooled(lease) => {
            let id = match lease.profile_id_owned() {
                Some(id) => id,
                None => "<legacy>".to_owned(),
            };
            (id, lease.generation())
        },
    };
    Some(ProjectionTrace { target_profile_id, target_generation, stats })
}

/// Whether an item carries any execution provenance.
pub open spec fn has_provenance(envelope: ResponseItemEnvelope) -> bool {
    envelope.metadata is Some && (envelope.metadata->0.execution_profile_id is Some
        || envelope.metadata->0.execution_generation is Some)
}

impl PortableCompactionPolicy {
    /// The compaction that a history calls for in a turn.
    pub open spec fn policy_of(
        execution_auth_mode: ExecutionAuthMode,
        history: Seq<ResponseItemEnvelope>,
    ) -> PortableCompactionPolicy {
        if execution_auth_mode is Pooled || (exists|i: int|
            0 <= i < history.len() && has_provenance(#[trigger] history[i])) {
            PortableCompactionPolicy::Portable
        } else {
            PortableCompactionPolicy::Stock
        }
    }

    /// Compaction is portable in a pooled turn, and for any history that an account has left its
    /// provenance in.
    pub fn for_history(
        execution_auth_mode: &ExecutionAuthMode,
        history: &Vec<ResponseItemEnvelope>,
    ) -> (policy: Self)
        ensures
            policy == PortableCompactionPolicy::policy_of(*execution_auth_mode, history@),
    {
        if execution_auth_mode.is_pooled() {
            return PortableCompactionPolicy::Portable;
        }
        let mut i: usize = 0;
        while i < history.len()
            invariant
                i <= history@.len(),
                forall|j: int| 0 <= j < i ==> !has_provenance(#[trigger] history@[j]),
            decreases history@.len() - i,
        {
            let stamped = match &history[i].metadata {
                Some(metadata) => metadata.execution_profile_id.is_some()
                    || metadata.execution_generation.is_some(),
                None => false,
            };
            if stamped {
                assert(has_provenance(history@[i as int]));
                return PortableCompactionPolicy::Portable;
            }
            i = i + 1;
        }
        PortableCompactionPolicy::Stock
    }
}

/// A history is compacted for every account to read as soon as the pool is at work or one of its
/// items bears a profile or a generation; a history of the host's own login alone is not.
pub proof fn law_marked_history_is_compacted_portably(
    mode: ExecutionAuthMode,
    history: Seq<ResponseItemEnvelope>,
    i: int,
)
    ensures
        mode is Pooled ==> PortableCompactionPolicy::policy_of(mode, history) is Portable,
        0 <= i < history.len() && history[i].metadata is Some && (
        history[i].metadata->0.execution_profile_id is Some
            || history[i].metadata->0.execution_generation is Some)
            ==> PortableCompactionPolicy::policy_of(mode, history) is Portable,
        mode is Stock && (forall|j: int|
            0 <= j < history.len() ==> ((#[trigger] history[j]).metadata matches Some(metadata)
                ==> metadata.execution_profile_id is None && metadata.execution_generation
                is None)) ==> PortableCompactionPolicy::policy_of(mode, history) is Stock,
{
    if 0 <= i < history.len() && has_provenance(history[i]) {
        assert(has_provenance(history[i]));
    }
}

/// History is projected for the account that the request runs on: under its profile and generation,
/// with the same profile for unattributed items. The stock login is no profile.
pub proof fn law_projection_is_for_the_account_of_the_binding(
    legacy: Option<String>,
    binding: ExecutionAuthBinding,
)
    ensures
        ({
            let transition = transition_for(legacy, binding);
            &&& binding is Stock ==> transition.target_profile_id is None
                && transition.legacy_unattributed_profile_id is None
            &&& binding matches ExecutionAuthBinding::Pooled(lease) ==> {
                &&& transition.legacy_unattributed_profile_id == legacy
                &&& lease.account() matches Some(account) ==> transition.target_profile_id == Some(
                    account.profile_id,
                ) && transition.target_generation == account.generation
                &&& lease.account() is None ==> transition.target_profile_id is None
            }
        }),
{
}

/// A log names the account that a projection was for: by its profile, or as the stock login.
pub proof fn law_log_names_the_account(binding: ExecutionAuthBinding)
    ensures
        binding is Stock ==> traced_profile(binding) == "<stock>"@,
        binding matches ExecutionAuthBinding::Pooled(lease) ==> {
            &&& lease.account() is Some ==> traced_profile(binding)
                == lease.account()->0.profile_id@
            &&& lease.account() is None ==> traced_profile(binding) == "<legacy>"@
        },
{
}

} // verus!
