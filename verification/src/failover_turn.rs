//! How a turn goes on after an account failover, and what the user is told.
use vstd::prelude::*;

use crate::accounts::AccountAvailability;
use crate::accounts::AccountPoolSnapshot;
use crate::execution_auth::AccountPoolView;
use crate::execution_auth::ExecutionAuthLease;
use crate::failover::CodexErrorDetails;
use crate::failover::FailoverOutcome;
use crate::failover_checkpoint::FailoverRetryMode;
use crate::failover_checkpoint::SamplingAttemptCheckpoint;
use crate::quota_exhaustion::UsageLimitReachedError;
use crate::text;
use crate::time;
use crate::time::UtcTime;

verus! {

/// Turn-loop action after the account layer has inspected an inference failure.
#[derive(Clone, Copy, Debug, PartialEq, Eq, Structural)]
pub enum SamplingFailoverDirective {
    /// Keep normal error and retry handling.
    NotHandled,
    /// Submit the exact same logical prompt using the newly selected account.
    ReplayCurrentSamplingRequest { transition: AccountFailoverTransition },
    /// Rebuild the prompt from local history and continue on the newly selected account.
    ContinueFromDurableHistory { transition: AccountFailoverTransition },
    /// Every configured account is unavailable.
    PoolExhausted,
    /// A tool may have had a side effect without a durable result, or partial visible output must
    /// first be reconciled. Automatic replay is blocked.
    ReconcileCurrentAttempt { transition: AccountFailoverTransition },
}

/// Whether this failure selected the active account or found it already selected.
#[derive(Clone, Copy, Debug, PartialEq, Eq, Structural)]
pub enum AccountFailoverTransition {
    Rebound,
    ActiveUnchanged,
}

/// The directive of a retry mode. Until a client can abandon partial output, visible text is never
/// duplicated just to make switching look seamless.
pub open spec fn directive_of(
    retry_mode: FailoverRetryMode,
    transition: AccountFailoverTransition,
) -> SamplingFailoverDirective {
    match retry_mode {
        FailoverRetryMode::ReplayCurrentSamplingRequest =>
            SamplingFailoverDirective::ReplayCurrentSamplingRequest { transition },
        FailoverRetryMode::ReplayAfterAbandoningPartialOutput =>
            SamplingFailoverDirective::ReconcileCurrentAttempt { transition },
        FailoverRetryMode::ReconcileCurrentAttempt =>
            SamplingFailoverDirective::ReconcileCurrentAttempt { transition },
        FailoverRetryMode::ContinueFromDurableHistory =>
            SamplingFailoverDirective::ContinueFromDurableHistory { transition },
    }
}

pub fn directive_for_retry_mode(
    retry_mode: FailoverRetryMode,
    transition: AccountFailoverTransition,
) -> (directive: SamplingFailoverDirective)
    ensures
        directive == directive_of(retry_mode, transition),
{
    match retry_mode {
        FailoverRetryMode::ReplayCurrentSamplingRequest =>
            SamplingFailoverDirective::ReplayCurrentSamplingRequest { transition },
        FailoverRetryMode::ReplayAfterAbandoningPartialOutput
        | FailoverRetryMode::ReconcileCurrentAttempt =>
            SamplingFailoverDirective::ReconcileCurrentAttempt { transition },
        FailoverRetryMode::ContinueFromDurableHistory =>
            SamplingFailoverDirective::ContinueFromDurableHistory { transition },
    }
}

/// The way that a turn goes on after a failover.
pub open spec fn failover_directive(
    outcome: FailoverOutcome,
    checkpoint: SamplingAttemptCheckpoint,
) -> SamplingFailoverDirective {
    match outcome {
        FailoverOutcome::NotApplicable => SamplingFailoverDirective::NotHandled,
        FailoverOutcome::PoolExhausted { .. } => SamplingFailoverDirective::PoolExhausted,
        FailoverOutcome::Rebound { .. } => directive_of(
            checkpoint.mode(),
            AccountFailoverTransition::Rebound,
        ),
        FailoverOutcome::ActiveUnchanged { .. } => directive_of(
            checkpoint.mode(),
            AccountFailoverTransition::ActiveUnchanged,
        ),
    }
}

/// Converts the outcome of a failover and the checkpoint of the failed attempt into the way that
/// the turn goes on.
pub fn handle_sampling_failover(
    outcome: &FailoverOutcome,
    checkpoint: SamplingAttemptCheckpoint,
) -> (directive: SamplingFailoverDirective)
    ensures
        directive == failover_directive(*outcome, checkpoint),
{
    match outcome {
        FailoverOutcome::NotApplicable => SamplingFailoverDirective::NotHandled,
        FailoverOutcome::PoolExhausted { .. } => SamplingFailoverDirective::PoolExhausted,
        FailoverOutcome::Rebound { .. } => directive_for_retry_mode(
            checkpoint.retry_mode(),
            AccountFailoverTransition::Rebound,
        ),
        FailoverOutcome::ActiveUnchanged { .. } => directive_for_retry_mode(
            checkpoint.retry_mode(),
            AccountFailoverTransition::ActiveUnchanged,
        ),
    }
}

/// A request is replayed only where nothing of the failed one was seen by anyone: no visible output,
/// no durable item, no tool call.
pub proof fn law_replay_only_of_unseen_attempts(
    outcome: FailoverOutcome,
    checkpoint: SamplingAttemptCheckpoint,
)
    requires
        failover_directive(outcome, checkpoint) is ReplayCurrentSamplingRequest,
    ensures
        outcome is Rebound || outcome is ActiveUnchanged,
        !checkpoint.visible_output_emitted,
        !checkpoint.completed_output_persisted,
        !checkpoint.tool_call_persisted,
        !checkpoint.tool_result_committed,
        !checkpoint.tool_reconciliation_failed,
{
}

/// The turn goes on exactly where an account is active after the failure, be it newly selected or found
/// already selected, and the directive says which. Then a request of which nothing was seen is sent
/// again, one that left something durable goes on from history, and one of which only a part was
/// shown, or whose tool was lost, waits for reconciliation. Only where no account is left is the pool
/// called exhausted, and only an unrelated error is left alone.
pub proof fn law_turn_goes_on_where_an_account_is_active(
    outcome: FailoverOutcome,
    checkpoint: SamplingAttemptCheckpoint,
    transition: AccountFailoverTransition,
)
    requires
        transition == AccountFailoverTransition::Rebound <==> outcome is Rebound,
    ensures
        failover_directive(outcome, checkpoint) is NotHandled <==> outcome is NotApplicable,
        failover_directive(outcome, checkpoint) is PoolExhausted <==> outcome is PoolExhausted,
        outcome is Rebound || outcome is ActiveUnchanged ==> {
            let directive = failover_directive(outcome, checkpoint);
            let durable = checkpoint.completed_output_persisted || checkpoint.tool_call_persisted
                || checkpoint.tool_result_committed;
            &&& directive == SamplingFailoverDirective::ReconcileCurrentAttempt { transition }
                <==> checkpoint.tool_reconciliation_failed || (checkpoint.visible_output_emitted
                && !durable)
            &&& directive == SamplingFailoverDirective::ContinueFromDurableHistory { transition }
                <==> durable && !checkpoint.tool_reconciliation_failed
            &&& directive == SamplingFailoverDirective::ReplayCurrentSamplingRequest { transition }
                <==> !durable && !checkpoint.tool_reconciliation_failed
                && !checkpoint.visible_output_emitted
        },
{
}

/// What a turn does after a failure does not depend on which account failed or why, but for the
/// account being there: two failures that leave an account active are followed by the same step.
pub proof fn law_directive_depends_on_progress_only(
    one: FailoverOutcome,
    other: FailoverOutcome,
    checkpoint: SamplingAttemptCheckpoint,
)
    requires
        one is Rebound || one is ActiveUnchanged,
        other is Rebound || other is ActiveUnchanged,
    ensures
        failover_directive(one, checkpoint) is ReplayCurrentSamplingRequest == failover_directive(
            other,
            checkpoint,
        ) is ReplayCurrentSamplingRequest,
        failover_directive(one, checkpoint) is ContinueFromDurableHistory == failover_directive(
            other,
            checkpoint,
        ) is ContinueFromDurableHistory,
        (one is Rebound) == (other is Rebound) ==> failover_directive(one, checkpoint)
            == failover_directive(other, checkpoint),
{
}

/// How the turn proceeds after an automatic account switch.
#[derive(Clone, Copy, Debug, PartialEq, Eq, Structural)]
pub enum AccountSwitchContinuation {
    /// The turn continues automatically on the newly selected account.
    Automatic,
    /// Visible partial output blocked automatic replay; the user must re-send the message.
    ResendRequired,
}

/// What the user is told of a switch.
pub open spec fn switch_text(
    from: Option<String>,
    to: Seq<char>,
    continuation: AccountSwitchContinuation,
) -> Seq<char> {
    "Codex account "@ + (match from {
        Some(id) => "`"@ + id@ + "`"@,
        None => "the previous account"@,
    }) + " became unavailable; switched to `"@ + to + "`. "@ + (match continuation {
        AccountSwitchContinuation::Automatic => "The turn continues automatically."@,
        AccountSwitchContinuation::ResendRequired =>
            "Partial output could not be replayed safely; re-send your message to continue on the new account."@,
    })
}

/// Message for a completed account rotation, naming the account that took over. There is none where
/// no pool account is active.
pub fn account_switch_message(
    active: Option<&ExecutionAuthLease>,
    failed_lease: &ExecutionAuthLease,
    continuation: AccountSwitchContinuation,
) -> (message: Option<String>)
    ensures
        match message {
            Some(message) => {
                &&& active is Some
                &&& active->0.spec_profile_id() is Some
                &&& message@ == switch_text(
                    failed_lease.spec_profile_id(),
                    active->0.spec_profile_id()->0@,
                    continuation,
                )
            },
            None => active is None || active->0.spec_profile_id() is None,
        },
{
    let active = match active {
        Some(active) => active,
        None => {
            return None;
        },
    };
    let to_profile = match active.profile_id() {
        Some(id) => id,
        None => {
            return None;
        },
    };
    let mut message = "Codex account ".to_owned();
    match failed_lease.profile_id() {
        Some(id) => {
            let mut from = "`".to_owned();
            from.append(id.as_str());
            from.append("`");
            message.append(from.as_str());
        },
        None => {
            message.append("the previous account");
        },
    }
    message.append(" became unavailable; switched to `");
    message.append(to_profile.as_str());
    message.append("`. ");
    match continuation {
        AccountSwitchContinuation::Automatic => {
            message.append("The turn continues automatically.");
        },
        AccountSwitchContinuation::ResendRequired => {
            message.append(
                "Partial output could not be replayed safely; re-send your message to continue on the new account.",
            );
        },
    }
    Some(message)
}

/// Known end of the cooldown of an exhausted account.
pub open spec fn exhausted_reset(snapshot: AccountPoolSnapshot) -> Option<UtcTime> {
    match snapshot.availability {
        AccountAvailability::Exhausted { resets_at } => resets_at,
        _ => None,
    }
}

/// Whether `earliest` is the earliest known cooldown end: it is one of them and none comes before
/// it, or there is none.
pub open spec fn is_earliest_reset(
    snapshots: Seq<AccountPoolSnapshot>,
    earliest: Option<UtcTime>,
) -> bool {
    match earliest {
        Some(time) => {
            &&& exists|i: int|
                0 <= i < snapshots.len() && exhausted_reset(#[trigger] snapshots[i]) == Some(time)
            &&& forall|i: int|
                0 <= i < snapshots.len() && exhausted_reset(#[trigger] snapshots[i]) is Some
                    ==> time.value() <= exhausted_reset(snapshots[i])->0.value()
        },
        None => forall|i: int|
            0 <= i < snapshots.len() ==> exhausted_reset(#[trigger] snapshots[i]) is None,
    }
}

/// Snapshots of a pool; none where there is no pool.
pub open spec fn snapshots_of(pool: Option<&AccountPoolView>) -> Seq<AccountPoolSnapshot> {
    match pool {
        Some(view) => view.snapshots@,
        None => Seq::empty(),
    }
}

/// Earliest known cooldown end across exhausted accounts.
pub fn earliest_exhausted_reset(pool: Option<&AccountPoolView>) -> (earliest: Option<UtcTime>)
    ensures
        is_earliest_reset(snapshots_of(pool), earliest),
{
    let snapshots = match pool {
        Some(view) => &view.snapshots,
        None => {
            return None;
        },
    };
    let mut earliest: Option<UtcTime> = None;
    let mut i: usize = 0;
    while i < snapshots.len()
        invariant
            i <= snapshots@.len(),
            is_earliest_reset(snapshots@.take(i as int), earliest),
        decreases snapshots@.len() - i,
    {
        let ghost before = snapshots@.take(i as int);
        let ghost after = snapshots@.take(i as int + 1);
        assert forall|j: int| 0 <= j < i implies before[j] == after[j] by {}
        assert(after[i as int] == snapshots@[i as int]);
        let reset = match &snapshots[i].availability {
            AccountAvailability::Exhausted { resets_at } => *resets_at,
            _ => None,
        };
        let ghost previous = earliest;
        match (earliest, reset) {
            (_, None) => {},
            (None, Some(time)) => {
                earliest = Some(time);
            },
            (Some(known), Some(time)) => {
                if time.is_before(known) {
                    earliest = Some(time);
                }
            },
        }
        proof {
            if earliest is Some {
                let witness = if earliest == previous && previous is Some {
                    choose|j: int|
                        0 <= j < before.len() && exhausted_reset(#[trigger] before[j]) == previous
                } else {
                    i as int
                };
                assert(exhausted_reset(after[witness]) == earliest);
            }
            assert forall|j: int|
                0 <= j < after.len() && exhausted_reset(#[trigger] after[j]) is Some implies earliest
                is Some && earliest->0.value() <= exhausted_reset(after[j])->0.value() by {
                if j < i {
                    assert(exhausted_reset(before[j]) is Some);
                }
            }
        }
        i = i + 1;
    }
    assert(snapshots@.take(snapshots@.len() as int) =~= snapshots@);
    earliest
}

/// Message shown when every configured account is unavailable, given the earliest cooldown end.
pub open spec fn exhausted_text(earliest: Option<UtcTime>) -> Seq<char> {
    if earliest is Some {
        "All configured Codex accounts have hit their usage limits. The earliest cooldown ends at "@
            + time::calendar_text(earliest->0.spec_seconds(), time::DATE_MINUTE@)
            + ". If a plan has earned rate-limit reset credits, redeeming one (for example from /status in the TUI or the app) unblocks that account immediately."@
    } else {
        "All configured Codex accounts are currently unavailable. Run `codex account list` for details."@
    }
}

/// The message for a given earliest cooldown end.
pub fn pool_exhausted_message_for(earliest: Option<UtcTime>) -> (message: String)
    ensures
        message@ == exhausted_text(earliest),
{
    match earliest {
        Some(ends_at) => {
            let mut message =
                "All configured Codex accounts have hit their usage limits. The earliest cooldown ends at ".to_owned();
            message.append(ends_at.date_minute().as_str());
            message.append(
                ". If a plan has earned rate-limit reset credits, redeeming one (for example from /status in the TUI or the app) unblocks that account immediately.",
            );
            message
        },
        None =>
            "All configured Codex accounts are currently unavailable. Run `codex account list` for details.".to_owned(),
    }
}

/// Builds the message shown when every configured account is unavailable.
pub fn pool_exhausted_message(pool: Option<&AccountPoolView>) -> (message: String)
    ensures
        exists|earliest: Option<UtcTime>| #[trigger]
            is_earliest_reset(snapshots_of(pool), earliest) && message@ == exhausted_text(earliest),
{
    let earliest = earliest_exhausted_reset(pool);
    pool_exhausted_message_for(earliest)
}

/// Error of a sampling request that cannot obtain any lease: a usage limit, so that clients show
/// the normal cooldown display.
pub fn pool_unavailable_error(pool: Option<&AccountPoolView>) -> (error: CodexErrorDetails)
    ensures
        error matches CodexErrorDetails::UsageLimitReached(limit) && limit == (
        UsageLimitReachedError {
            plan_type: None,
            resets_at: limit.resets_at,
            rate_limits: None,
            promo_message: None,
            rate_limit_reached_type: None,
        }) && is_earliest_reset(snapshots_of(pool), limit.resets_at),
{
    CodexErrorDetails::UsageLimitReached(
        UsageLimitReachedError {
            plan_type: None,
            resets_at: earliest_exhausted_reset(pool),
            rate_limits: None,
            promo_message: None,
            rate_limit_reached_type: None,
        },
    )
}

/// The earliest cooldown end that is told comes from an exhausted account, and no exhausted account
/// that names its reset is ready before it. Accounts in any other state do not count.
pub proof fn law_earliest_reset_is_of_an_exhausted_account(
    snapshots: Seq<AccountPoolSnapshot>,
    earliest: Option<UtcTime>,
    i: int,
)
    requires
        is_earliest_reset(snapshots, earliest),
        0 <= i < snapshots.len(),
    ensures
        snapshots[i].availability matches AccountAvailability::Exhausted { resets_at: Some(reset) }
            ==> earliest is Some && earliest->0.value() <= reset.value(),
        earliest is Some ==> exists|j: int|
            0 <= j < snapshots.len() && (#[trigger] snapshots[j]).availability
                == (AccountAvailability::Exhausted { resets_at: earliest }),
        earliest is None ==> !(snapshots[i].availability matches AccountAvailability::Exhausted {
            resets_at: Some(_),
        }),
{
    assert(exhausted_reset(snapshots[i]) is Some || exhausted_reset(snapshots[i]) is None);
    if earliest is Some {
        let j = choose|j: int|
            0 <= j < snapshots.len() && exhausted_reset(#[trigger] snapshots[j]) == earliest;
        assert(snapshots[j].availability == (AccountAvailability::Exhausted {
            resets_at: earliest,
        }));
    }
}

/// The message of a switch names the account that failed and the one that took over, and ends with
/// whether the turn goes on by itself.
#[verifier::rlimit(40)]
pub proof fn law_switch_message_names_both_accounts(
    from: Option<String>,
    to: Seq<char>,
    continuation: AccountSwitchContinuation,
)
    ensures
        text::holds(switch_text(from, to, continuation), to),
        from is Some ==> text::holds(switch_text(from, to, continuation), from->0@),
        from is None ==> text::holds(switch_text(from, to, continuation), "the previous account"@),
        continuation is Automatic ==> "The turn continues automatically."@.is_suffix_of(
            switch_text(from, to, continuation),
        ),
        continuation is ResendRequired
            ==> "Partial output could not be replayed safely; re-send your message to continue on the new account."@.is_suffix_of(
            switch_text(from, to, continuation),
        ),
{
    let whole = switch_text(from, to, continuation);
    let start = "Codex account "@;
    let name = match from {
        Some(id) => "`"@ + id@ + "`"@,
        None => "the previous account"@,
    };
    let middle = " became unavailable; switched to `"@;
    let end = match continuation {
        AccountSwitchContinuation::Automatic => "The turn continues automatically."@,
        AccountSwitchContinuation::ResendRequired =>
            "Partial output could not be replayed safely; re-send your message to continue on the new account."@,
    };
    text::lemma_holds(start + name + middle, to, "`. "@ + end);
    assert(whole =~= start + name + middle + to + ("`. "@ + end));
    match from {
        Some(id) => {
            text::lemma_holds(start + "`"@, id@, "`"@ + middle + to + "`. "@ + end);
            assert(whole =~= start + "`"@ + id@ + ("`"@ + middle + to + "`. "@ + end));
        },
        None => {
            text::lemma_holds(start, name, middle + to + "`. "@ + end);
            assert(whole =~= start + name + (middle + to + "`. "@ + end));
        },
    }
}

/// The message of an exhausted pool tells when the first account is back, where that is known, and
/// promises nothing where it is not.
pub proof fn law_exhausted_message_tells_the_reset(earliest: Option<UtcTime>)
    ensures
        earliest is Some ==> text::holds(
            exhausted_text(earliest),
            time::calendar_text(earliest->0.spec_seconds(), "%Y-%m-%d %H:%M UTC"@),
        ),
        earliest is None ==> exhausted_text(earliest)
            == "All configured Codex accounts are currently unavailable. Run `codex account list` for details."@,
{
    if earliest is Some {
        text::lemma_holds(
            "All configured Codex accounts have hit their usage limits. The earliest cooldown ends at "@,
            time::calendar_text(earliest->0.spec_seconds(), time::DATE_MINUTE@),
            ". If a plan has earned rate-limit reset credits, redeeming one (for example from /status in the TUI or the app) unblocks that account immediately."@,
        );
    }
}

} // verus!
