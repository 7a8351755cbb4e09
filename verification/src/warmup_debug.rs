//! The transcript of the warmup task that clients can ask for.
use vstd::prelude::*;

use crate::account_window_warmup::INITIAL_WARMUP_SETTLE_SECONDS;
use crate::accounts::AccountAvailability;
use crate::accounts::AccountPoolSnapshot;
use crate::accounts::WindowWarmupOutcome;
use crate::config::AccountPoolRotationStrategy;
use crate::percent::Percent;
use crate::protocol::AccountPoolWarmupDebugAccount;
use crate::protocol::AccountPoolWarmupDebugEvent;
use crate::protocol::AccountPoolWarmupDebugParams;
use crate::protocol::AccountPoolWarmupDebugResponse;
use crate::text;
use crate::text::copy_opt_text;
use crate::time::UtcTime;

verus! {

/// What the host knows of the warmup task, apart from the accounts.
#[derive(Clone, Debug, PartialEq, Eq)]
pub struct WarmupTaskState {
    /// Whether turns of the present configuration are pooled.
    pub enabled: bool,
    pub task_running: bool,
    pub interval_seconds: u64,
    pub rotation_strategy: AccountPoolRotationStrategy,
    pub session_model: Option<String>,
}

/// One entry of the task's log.
#[derive(Clone, Debug, PartialEq, Eq)]
pub struct WarmupLogEntry {
    pub at: UtcTime,
    pub message: String,
}

/// Name of a rotation strategy.
pub open spec fn strategy_label_text(strategy: AccountPoolRotationStrategy) -> Seq<char> {
    match strategy {
        AccountPoolRotationStrategy::FillFirst => "fillFirst"@,
        AccountPoolRotationStrategy::EarliestReset => "earliestReset"@,
    }
}

pub fn rotation_strategy_label(strategy: AccountPoolRotationStrategy) -> (label: &'static str)
    ensures
        label@ == strategy_label_text(strategy),
{
    match strategy {
        AccountPoolRotationStrategy::FillFirst => "fillFirst",
        AccountPoolRotationStrategy::EarliestReset => "earliestReset",
    }
}

/// Name of the state of an account.
pub open spec fn availability_label_text(availability: AccountAvailability) -> Seq<char> {
    match availability {
        AccountAvailability::Available => "available"@,
        AccountAvailability::Exhausted { .. } => "exhausted"@,
        AccountAvailability::AuthenticationUnavailable { .. } => "authUnavailable"@,
        AccountAvailability::Disabled => "disabled"@,
    }
}

pub fn availability_label(availability: &AccountAvailability) -> (label: &'static str)
    ensures
        label@ == availability_label_text(*availability),
{
    match availability {
        AccountAvailability::Available => "available",
        AccountAvailability::Exhausted { .. } => "exhausted",
        AccountAvailability::AuthenticationUnavailable { .. } => "authUnavailable",
        AccountAvailability::Disabled => "disabled",
    }
}

/// Name of the outcome of a warmup.
pub open spec fn outcome_label_text(outcome: WindowWarmupOutcome) -> Seq<char> {
    match outcome {
        WindowWarmupOutcome::Succeeded => "succeeded"@,
        WindowWarmupOutcome::Failed => "failed"@,
        WindowWarmupOutcome::SkippedNoAuth => "skippedNoAuth"@,
    }
}

pub fn outcome_label(outcome: WindowWarmupOutcome) -> (label: &'static str)
    ensures
        label@ == outcome_label_text(outcome),
{
    match outcome {
        WindowWarmupOutcome::Succeeded => "succeeded",
        WindowWarmupOutcome::Failed => "failed",
        WindowWarmupOutcome::SkippedNoAuth => "skippedNoAuth",
    }
}

/// Whether a profile is one of those that warmup would turn to.
pub open spec fn is_candidate(candidates: Seq<String>, profile_id: Seq<char>) -> bool {
    exists|i: int| 0 <= i < candidates.len() && (#[trigger] candidates[i])@ == profile_id
}

fn candidate(candidates: &Vec<String>, profile_id: &String) -> (found: bool)
    ensures
        found == is_candidate(candidates@, profile_id@),
{
    let mut i: usize = 0;
    while i < candidates.len()
        invariant
            i <= candidates@.len(),
            forall|j: int| 0 <= j < i ==> (#[trigger] candidates@[j])@ != profile_id@,
        decreases candidates@.len() - i,
    {
        if candidates[i] == *profile_id {
            return true;
        }
        i = i + 1;
    }
    false
}

/// Whether `account` is how a snapshot appears in the transcript.
pub open spec fn is_account_of(
    account: AccountPoolWarmupDebugAccount,
    snapshot: AccountPoolSnapshot,
    email: Option<String>,
    candidates: Seq<String>,
) -> bool {
    &&& account.profile_id@ == snapshot.profile.id@
    &&& account.email == email
    &&& account.label == snapshot.profile.label
    &&& account.priority == snapshot.profile.priority
    &&& account.is_active == snapshot.is_active
    &&& account.is_candidate == is_candidate(candidates, snapshot.profile.id@)
    &&& account.availability@ == availability_label_text(snapshot.availability)
    &&& account.primary_used_percent == (match snapshot.rate_limits.primary {
        Some(window) => Some(window.used_percent),
        None => None::<Percent>,
    })
    &&& text::opt_text(account.persisted_warmup_outcome) == (match snapshot.window_warmup {
        Some(observation) => Some(outcome_label_text(observation.outcome)),
        None => None::<Seq<char>>,
    })
}

fn account_entry(
    snapshot: &AccountPoolSnapshot,
    email: &Option<String>,
    candidates: &Vec<String>,
) -> (account: AccountPoolWarmupDebugAccount)
    ensures
        is_account_of(account, *snapshot, *email, candidates@),
{
    AccountPoolWarmupDebugAccount {
        profile_id: snapshot.profile.id.clone(),
        email: copy_opt_text(email),
        label: copy_opt_text(&snapshot.profile.label),
        priority: snapshot.profile.priority,
        is_active: snapshot.is_active,
        is_candidate: candidate(candidates, &snapshot.profile.id),
        availability: availability_label(&snapshot.availability).to_owned(),
        primary_used_percent: match &snapshot.rate_limits.primary {
            Some(window) => Some(window.used_percent),
            None => None,
        },
        persisted_warmup_outcome: match &snapshot.window_warmup {
            Some(observation) => Some(outcome_label(observation.outcome).to_owned()),
            None => None,
        },
    }
}

/// Whether a transcript request starts a warmup pass.
pub fn requests_pass(params: &AccountPoolWarmupDebugParams, enabled: bool) -> (requested: bool)
    ensures
        requested == (enabled && params.run_now),
{
    enabled && params.run_now
}

/// The transcript. `candidates` are the profiles that warmup would turn to; `emails` are the emails of
/// the accounts, in their order; `log` is the log of the task.
pub fn account_pool_warmup_debug_response(
    params: &AccountPoolWarmupDebugParams,
    state: &WarmupTaskState,
    candidates: &Vec<String>,
    snapshots: &Vec<AccountPoolSnapshot>,
    emails: &Vec<Option<String>>,
    log: &Vec<WarmupLogEntry>,
) -> (response: AccountPoolWarmupDebugResponse)
    requires
        emails@.len() == snapshots@.len(),
    ensures
        response.enabled == state.enabled,
        response.task_running == state.task_running,
        response.pass_requested == (state.enabled && params.run_now),
        response.interval_seconds == state.interval_seconds,
        response.settle_seconds == INITIAL_WARMUP_SETTLE_SECONDS,
        response.rotation_strategy@ == strategy_label_text(state.rotation_strategy),
        response.session_model == state.session_model,
        response.accounts@.len() == (if state.enabled {
            snapshots@.len()
        } else {
            0
        }),
        forall|i: int|
            0 <= i < response.accounts@.len() ==> is_account_of(
                #[trigger] response.accounts@[i],
                snapshots@[i],
                emails@[i],
                candidates@,
            ),
        response.events@.len() == log@.len(),
        forall|i: int|
            0 <= i < log@.len() ==> (#[trigger] response.events@[i]).at == log@[i].at.spec_seconds()
                && response.events@[i].message@ == log@[i].message@,
{
    let mut accounts: Vec<AccountPoolWarmupDebugAccount> = Vec::new();
    if state.enabled {
        let mut i: usize = 0;
        while i < snapshots.len()
            invariant
                i <= snapshots@.len(),
                emails@.len() == snapshots@.len(),
                accounts@.len() == i,
                forall|j: int|
                    0 <= j < i ==> is_account_of(
                        #[trigger] accounts@[j],
                        snapshots@[j],
                        emails@[j],
                        candidates@,
                    ),
            decreases snapshots@.len() - i,
        {
            accounts.push(account_entry(&snapshots[i], &emails[i], candidates));
            i = i + 1;
        }
    }
    let mut events: Vec<AccountPoolWarmupDebugEvent> = Vec::new();
    let mut k: usize = 0;
    while k < log.len()
        invariant
            k <= log@.len(),
            events@.len() == k,
            forall|j: int|
                0 <= j < k ==> (#[trigger] events@[j]).at == log@[j].at.spec_seconds()
                    && events@[j].message@ == log@[j].message@,
        decreases log@.len() - k,
    {
        events.push(
            AccountPoolWarmupDebugEvent {
                at: log[k].at.timestamp(),
                message: log[k].message.clone(),
            },
        );
        k = k + 1;
    }
    AccountPoolWarmupDebugResponse {
        enabled: state.enabled,
        task_running: state.task_running,
        pass_requested: requests_pass(params, state.enabled),
        interval_seconds: state.interval_seconds,
        settle_seconds: INITIAL_WARMUP_SETTLE_SECONDS,
        rotation_strategy: rotation_strategy_label(state.rotation_strategy).to_owned(),
        session_model: copy_opt_text(&state.session_model),
        accounts,
        events,
    }
}

/// The transcript tells of each account what the pool holds of it: who it is, whether it is active
/// or next in line, its state, the usage of its short window, and how its last warmup went.
pub proof fn law_transcript_tells_what_the_pool_holds(
    account: AccountPoolWarmupDebugAccount,
    snapshot: AccountPoolSnapshot,
    email: Option<String>,
    candidates: Seq<String>,
    i: int,
)
    requires
        is_account_of(account, snapshot, email, candidates),
    ensures
        account.profile_id@ == snapshot.profile.id@,
        account.label == snapshot.profile.label,
        account.email == email,
        account.priority == snapshot.profile.priority,
        account.is_active == snapshot.is_active,
        0 <= i < candidates.len() && candidates[i]@ == snapshot.profile.id@ ==> account.is_candidate,
        (forall|j: int| 0 <= j < candidates.len() ==> (#[trigger] candidates[j])@
            != snapshot.profile.id@) ==> !account.is_candidate,
        snapshot.availability is Available ==> account.availability@ == "available"@,
        snapshot.availability is Exhausted ==> account.availability@ == "exhausted"@,
        snapshot.availability is AuthenticationUnavailable ==> account.availability@
            == "authUnavailable"@,
        snapshot.availability is Disabled ==> account.availability@ == "disabled"@,
        account.primary_used_percent is Some <==> snapshot.rate_limits.primary is Some,
        snapshot.rate_limits.primary matches Some(window) ==> account.primary_used_percent == Some(
            window.used_percent,
        ),
        account.persisted_warmup_outcome is Some <==> snapshot.window_warmup is Some,
        snapshot.window_warmup matches Some(observation) ==> {
            let told = account.persisted_warmup_outcome->0@;
            &&& observation.outcome is Succeeded ==> told == "succeeded"@
            &&& observation.outcome is Failed ==> told == "failed"@
            &&& observation.outcome is SkippedNoAuth ==> told == "skippedNoAuth"@
        },
{
}

/// Each strategy goes by a name of its own.
pub proof fn law_strategy_labels_tell_strategies_apart(
    a: AccountPoolRotationStrategy,
    b: AccountPoolRotationStrategy,
)
    ensures
        strategy_label_text(a) == strategy_label_text(b) ==> a == b,
        a is FillFirst ==> strategy_label_text(a) == "fillFirst"@,
{
    reveal_strlit("fillFirst");
    reveal_strlit("earliestReset");
    assert("fillFirst"@.len() != "earliestReset"@.len());
}

} // verus!
