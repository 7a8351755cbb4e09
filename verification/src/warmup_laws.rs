//! Laws of window warmups: what is recorded of one, what it writes to the pool, and how long it
//! waits.
use vstd::prelude::*;

use crate::account_window_warmup;
use crate::account_window_warmup::AfterStream;
use crate::account_window_warmup::FailureKind;
use crate::account_window_warmup::StreamEnd;
use crate::account_window_warmup::StreamEvidence;
use crate::account_window_warmup::UsageVerification;
use crate::account_window_warmup::WarmupRequest;
use crate::account_window_warmup::WarmupStart;
use crate::accounts;
use crate::accounts::AccountPoolSnapshot;
use crate::accounts::AccountRateLimits;
use crate::accounts::RateLimitSnapshot;
use crate::execution_auth;
use crate::percent::Percent;
use crate::seqs;
use crate::time::UtcTime;

verus! {

/// Whether a percentage is a number above zero, infinity among them.
pub open spec fn is_in_use(percent: Percent) -> bool {
    0 < percent.bits <= 0x7FF0_0000_0000_0000
}

/// Whether a percentage is zero, or a number below it.
pub open spec fn is_idle(percent: Percent) -> bool {
    percent.bits == 0 || 0x8000_0000_0000_0000 <= percent.bits <= 0xFFF0_0000_0000_0000
}

/// Whether limits of the pool show the short window in use.
pub open spec fn runs(limits: AccountRateLimits) -> bool {
    limits.primary matches Some(window) && is_in_use(window.used_percent)
}

/// Whether limits of a stream show the short window in use.
pub open spec fn stream_runs(limits: Option<RateLimitSnapshot>) -> bool {
    limits matches Some(limits) && limits.primary matches Some(window) && is_in_use(
        window.used_percent,
    )
}

/// Whether one of some reports shows the short window in use.
pub open spec fn some_report_runs(reports: Seq<Option<AccountRateLimits>>) -> bool {
    exists|i: int| 0 <= i < reports.len() && (#[trigger] reports[i]) is Some && runs(reports[i]->0)
}

/// Whether the `k`th report is the last that came in.
pub open spec fn is_last_report(reports: Seq<Option<AccountRateLimits>>, k: int) -> bool {
    &&& 0 <= k < reports.len()
    &&& reports[k] is Some
    &&& forall|j: int| k < j < reports.len() ==> (#[trigger] reports[j]) is None
}

/// The failure streak grows by one with each failure in a row, whatever the profile, and starts
/// anew after anything else; the pause before the next try is the one that was asked for, else one
/// between five minutes and six hours.
pub proof fn law_failures_in_a_row_are_counted(
    snapshots: Seq<AccountPoolSnapshot>,
    profile_id: Seq<char>,
    attempted_at: UtcTime,
    kind: FailureKind,
    backoff_override: Option<u64>,
)
    ensures
        ({
            let failure = account_window_warmup::failure_observation(
                snapshots,
                profile_id,
                attempted_at,
                kind,
                backoff_override,
            );
            let found = accounts::spec_find_profile(snapshots, profile_id);
            let last = snapshots[found->0].window_warmup;
            let follows_a_failure = found is Some && last is Some && last->0.outcome is Failed;
            &&& failure.outcome is Failed
            &&& failure.attempted_at == attempted_at
            &&& !follows_a_failure ==> failure.consecutive_failures == 1
            &&& follows_a_failure && last->0.consecutive_failures < u32::MAX
                ==> failure.consecutive_failures == last->0.consecutive_failures + 1
            &&& follows_a_failure && last->0.consecutive_failures == u32::MAX
                ==> failure.consecutive_failures == u32::MAX
            &&& backoff_override matches Some(seconds) ==> failure.retry_after == Some(
                attempted_at.spec_plus(seconds),
            )
            &&& backoff_override is None ==> exists|seconds: u64|
                300 <= seconds <= 21600 && (kind is Noop ==> 1800 <= seconds) && (
                failure.consecutive_failures == 1 ==> seconds == if kind is Noop {
                    1800u64
                } else {
                    300u64
                }) && (failure.consecutive_failures >= 5 ==> seconds == 21600)
                    && failure.retry_after == Some(#[trigger] attempted_at.spec_plus(seconds))
        }),
{
    let failure = account_window_warmup::failure_observation(
        snapshots,
        profile_id,
        attempted_at,
        kind,
        backoff_override,
    );
    if backoff_override is None {
        let seconds = account_window_warmup::backoff_seconds(kind, failure.consecutive_failures);
        assert(failure.retry_after == Some(attempted_at.spec_plus(seconds)));
    }
}

/// A newer report replaces an older one window by window. The one thing that it does not take back
/// is the start of the short window, and that only until the window's reset.
pub proof fn law_newer_report_replaces_the_older(
    existing: AccountRateLimits,
    incoming: AccountRateLimits,
    now: UtcTime,
)
    ensures
        ({
            let merged = account_window_warmup::merged_limits(Some(existing), incoming, now);
            &&& merged.secondary == incoming.secondary
            &&& merged.observed_at is Some <==> incoming.observed_at is Some
                || existing.observed_at is Some
            &&& incoming.observed_at is Some ==> merged.observed_at == incoming.observed_at
            &&& incoming.observed_at is None ==> merged.observed_at == existing.observed_at
            &&& runs(incoming) || !runs(existing) ==> merged.primary == incoming.primary
            &&& existing.primary is Some && existing.primary->0.resets_at is Some
                && existing.primary->0.resets_at->0.value() <= now.value() ==> merged.primary
                == incoming.primary
            &&& runs(existing) && (existing.primary->0.resets_at is Some
                ==> existing.primary->0.resets_at->0.value() > now.value())
                && (incoming.primary is None || is_idle(incoming.primary->0.used_percent))
                ==> merged.primary == existing.primary
            &&& account_window_warmup::merged_limits(None, incoming, now) == incoming
        }),
{
}

/// Of the reported limits the first named after Codex counts, and where none is, the first of all.
pub proof fn law_codex_usage_counts_first(reported: Seq<RateLimitSnapshot>, i: int)
    requires
        0 <= i < reported.len(),
    ensures
        ({
            let is_codex = |k: int|
                reported[k].limit_id is Some && reported[k].limit_id->0@ == "codex"@;
            &&& account_window_warmup::usage_choice(reported) matches Some(choice) && 0 <= choice
                < reported.len()
            &&& is_codex(i) ==> is_codex(account_window_warmup::usage_choice(reported)->0)
                && account_window_warmup::usage_choice(reported)->0 <= i
            &&& !is_codex(account_window_warmup::usage_choice(reported)->0)
                ==> account_window_warmup::usage_choice(reported) == Some(0int)
        }),
        account_window_warmup::usage_choice(Seq::empty()) is None,
{
    let named = account_window_warmup::is_named_after_codex();
    seqs::lemma_first_where(reported, named);
    seqs::lemma_first_where(Seq::<RateLimitSnapshot>::empty(), named);
    assert(named(reported[i]) || !named(reported[i]));
}

/// The session's own model is tried first, the catalog's default after it, each once and nothing
/// else.
pub proof fn law_each_model_is_tried_once(session: Option<String>, catalog_default: Option<String>)
    ensures
        ({
            let models = account_window_warmup::models_to_try(session, catalog_default);
            &&& session is Some ==> models.len() > 0 && models[0] == session->0
            &&& session is None && catalog_default is Some ==> models.len() > 0 && models[0]
                == catalog_default->0
            &&& catalog_default is Some ==> models.last()@ == catalog_default->0@
            &&& forall|i: int, j: int|
                0 <= i < j < models.len() ==> (#[trigger] models[i])@ != (#[trigger] models[j])@
            &&& forall|i: int|
                0 <= i < models.len() ==> Some(#[trigger] models[i]) == session || Some(models[i])
                    == catalog_default
        }),
{
}

/// A warmup starts with a request exactly where there is a login and a model; else it is recorded
/// at once as skipped or as failed.
pub proof fn law_warmup_needs_a_login_and_a_model(
    has_chatgpt_auth: bool,
    models: Seq<String>,
    snapshots: Seq<AccountPoolSnapshot>,
    profile_id: Seq<char>,
    attempted_at: UtcTime,
    start: WarmupStart,
)
    requires
        account_window_warmup::starts_with(
            has_chatgpt_auth,
            models,
            snapshots,
            profile_id,
            attempted_at,
            start,
        ),
    ensures
        start is Request <==> has_chatgpt_auth && models.len() > 0,
        start matches WarmupStart::Request(request) ==> {
            &&& seq![request.model] + request.fallback_models@ == models
            &&& request.attempted_at == attempted_at
            &&& request.observed is None
        },
        start matches WarmupStart::Finished(recorded) ==> {
            &&& recorded.attempted_at == attempted_at
            &&& recorded.outcome is SkippedNoAuth <==> !has_chatgpt_auth
            &&& recorded.outcome is Failed <==> has_chatgpt_auth
            &&& !has_chatgpt_auth ==> recorded.consecutive_failures == 0 && recorded.retry_after
                == Some(attempted_at.spec_plus(1800))
            &&& has_chatgpt_auth ==> recorded.consecutive_failures > 0 && recorded.retry_after
                == Some(attempted_at.spec_plus(21600))
        },
{
    if start is Request {
        let request = start->Request_0;
        assert(seq![request.model] + request.fallback_models@ =~= models);
    }
}

/// A request is followed up where it went through or showed a started window before it timed out,
/// and repeated only where its model was refused and another one is left. Nothing is recorded
/// where nothing was sent, and every other end is a failure.
pub proof fn law_stream_end_decides_what_follows(
    request: WarmupRequest,
    end: StreamEnd,
    snapshots: Seq<AccountPoolSnapshot>,
    profile_id: Seq<char>,
    next: AfterStream,
)
    requires
        request.leads_to(end, snapshots, profile_id, next),
    ensures
        next is Verify <==> end is Ended || (end is TimedOut && stream_runs(request.observed)),
        next matches AfterStream::Verify(evidence) ==> evidence.attempted_at == request.attempted_at
            && evidence.limits == request.observed,
        next is Retry <==> end is UnusableModel && request.fallback_models@.len() > 0,
        next matches AfterStream::Retry(retry) ==> {
            &&& seq![retry.model] + retry.fallback_models@ == request.fallback_models@
            &&& retry.attempted_at == request.attempted_at
            &&& retry.observed is None
        },
        (next matches AfterStream::Finished(None)) <==> end is AgentIdentityUnavailable,
        next matches AfterStream::Finished(Some(recorded)) ==> recorded.outcome is Failed
            && recorded.attempted_at == request.attempted_at && recorded.consecutive_failures > 0,
{
    if next is Retry {
        let retry = next->Retry_0;
        assert(seq![retry.model] + retry.fallback_models@ =~= request.fallback_models@);
    }
}

/// Polling goes on until a report shows the window in use; where the stream had shown it already,
/// one report that comes in at once is enough. What it keeps is the last report that came in.
#[verifier::rlimit(40)]
pub proof fn law_polling_keeps_the_last_report(
    start: UsageVerification,
    reports: Seq<Option<AccountRateLimits>>,
)
    requires
        start.attempts == 0,
        start.usage is None,
        !start.settled,
        account_window_warmup::were_asked_for(start, reports),
    ensures
        ({
            let polled = account_window_warmup::after_reports(start, reports);
            &&& polled.settled <==> some_report_runs(reports) || (start.stream_started
                && reports.len() > 0 && reports[0] is Some)
            &&& polled.usage is None <==> forall|i: int|
                0 <= i < reports.len() ==> (#[trigger] reports[i]) is None
            &&& forall|k: int| #[trigger]
                is_last_report(reports, k) ==> polled.usage == reports[k]
            &&& polled.usage is Some && runs(polled.usage->0) <==> some_report_runs(reports)
            &&& polled.attempts == reports.len() <= 4
        }),
    decreases reports.len(),
{
    let polled = account_window_warmup::after_reports(start, reports);
    if reports.len() > 0 {
        let rest = reports.drop_last();
        let last = reports.len() - 1;
        let before = account_window_warmup::after_reports(start, rest);
        assert forall|i: int| 0 <= i < rest.len() implies {
            &&& !(#[trigger] account_window_warmup::after_reports(start, rest.take(i))).settled
            &&& account_window_warmup::after_reports(start, rest.take(i)).attempts
                < account_window_warmup::USAGE_ATTEMPTS
        } by {
            assert(rest.take(i) =~= reports.take(i));
            assert(!account_window_warmup::after_reports(start, reports.take(i)).settled);
        }
        law_polling_keeps_the_last_report(start, rest);
        account_window_warmup::law_polling_is_bounded_and_faithful(start, reports);
        account_window_warmup::law_polling_is_bounded_and_faithful(start, rest);
        assert(reports.take(last) =~= rest);
        assert(!account_window_warmup::after_reports(start, reports.take(last)).settled);
        assert(!some_report_runs(rest));
        if some_report_runs(reports) {
            let i = choose|i: int|
                0 <= i < reports.len() && (#[trigger] reports[i]) is Some && runs(reports[i]->0);
            if i < last {
                assert(rest[i] == reports[i]);
            }
        }
        if reports[last] is Some && runs(reports[last]->0) {
            assert(some_report_runs(reports));
        }
        if last > 0 {
            assert(rest[0] == reports[0]);
        }
        if polled.usage is None {
            assert forall|i: int| 0 <= i < reports.len() implies (#[trigger] reports[i]) is None by {
                if i < last {
                    assert(rest[i] is None);
                }
            }
        }
        if forall|i: int| 0 <= i < reports.len() ==> (#[trigger] reports[i]) is None {
            assert forall|i: int| 0 <= i < rest.len() implies (#[trigger] rest[i]) is None by {
                assert(reports[i] is None);
            }
        }
        assert forall|k: int| #[trigger] is_last_report(reports, k) implies polled.usage
            == reports[k] by {
            if k < last {
                assert(reports[last] is None);
                assert(rest[k] == reports[k]);
                assert forall|j: int| k < j < rest.len() implies (#[trigger] rest[j]) is None by {
                    assert(reports[j] is None);
                }
                assert(is_last_report(rest, k));
            }
        }
    }
}

/// The pauses of a polling start at nothing and at one second, and double from there.
pub proof fn law_polling_pauses_double(attempt: int)
    requires
        1 <= attempt < 3,
    ensures
        account_window_warmup::usage_delay(0) == 0,
        account_window_warmup::usage_delay(1) == 1,
        account_window_warmup::usage_delay(attempt + 1) == 2 * account_window_warmup::usage_delay(
            attempt,
        ),
{
}

/// Passes never wait longer than their interval; where a standby account is needed soon they wait
/// five minutes at most, and else the whole interval.
pub proof fn law_urgent_passes_come_soon(enabled: bool, urgent: bool, interval_seconds: u64)
    ensures
        ({
            let delay = account_window_warmup::pass_delay(enabled, urgent, interval_seconds);
            &&& delay == interval_seconds || delay == 300
            &&& delay <= interval_seconds
            &&& enabled && urgent ==> delay <= 300
            &&& !(enabled && urgent) ==> delay == interval_seconds
        }),
{
}

/// A warmup is told as it went. It counts as a success exactly where the stream, a report of the
/// usage endpoint or the pool showed the short window in use, as a failure where none did, and as
/// nothing where the profile became active meanwhile and the warmup had no proof of its own.
/// Limits of the stream are written where the profile is on standby or they prove a start, and
/// reports likewise; a start that was reported is always written at the end.
#[verifier::rlimit(40)]
pub proof fn law_warmup_is_recorded_as_it_went(
    evidence: StreamEvidence,
    snapshots: Seq<AccountPoolSnapshot>,
    profile_id: Seq<char>,
    checked_at: UtcTime,
    reports: Seq<Option<AccountRateLimits>>,
    ended_at: UtcTime,
    later: Seq<AccountPoolSnapshot>,
    k: int,
)
    requires
        account_window_warmup::were_asked_for(
            evidence.spec_check_pool(snapshots, profile_id, checked_at).1,
            reports,
        ),
        is_last_report(reports, k) || forall|i: int|
            0 <= i < reports.len() ==> (#[trigger] reports[i]) is None,
    ensures
        ({
            let place = accounts::spec_find_profile(snapshots, profile_id);
            let later_place = accounts::spec_find_profile(later, profile_id);
            let standby = place is Some && !snapshots[place->0].is_active;
            let own_proof = stream_runs(evidence.limits) || some_report_runs(reports);
            let pool_proof = later_place is Some && runs(later[later_place->0].rate_limits);
            let (written, start) = evidence.spec_check_pool(snapshots, profile_id, checked_at);
            let polled = account_window_warmup::after_reports(start, reports);
            let (reported, conclusion) = polled.spec_after_usage(ended_at);
            let (last, recorded) = conclusion.spec_finish(later, profile_id);
            // What is recorded.
            &&& recorded is None <==> !standby && !own_proof
            &&& recorded is Some ==> {
                &&& recorded->0.attempted_at == evidence.attempted_at
                &&& recorded->0.outcome is Succeeded <==> own_proof || pool_proof
                &&& recorded->0.outcome is Failed <==> !(own_proof || pool_proof)
                &&& own_proof || pool_proof ==> recorded->0.consecutive_failures == 0
                    && recorded->0.retry_after == Some(evidence.attempted_at.spec_plus(300))
                &&& !(own_proof || pool_proof) ==> recorded->0
                    == account_window_warmup::failure_observation(
                    later,
                    profile_id,
                    evidence.attempted_at,
                    FailureKind::Noop,
                    None,
                )
            }
            // What is written.
            &&& written is Some <==> evidence.limits is Some && (standby || stream_runs(
                evidence.limits,
            ))
            &&& written is Some ==> written->0 == execution_auth::spec_convert_limits(
                evidence.limits->0,
                checked_at,
            )
            &&& reported is Some <==> is_last_report(reports, k) && (standby || own_proof)
            &&& reported is Some ==> reported->0.secondary == reports[k]->0.secondary
            &&& reported is Some && some_report_runs(reports) ==> reported->0.primary
                == reports[k]->0.primary
            &&& reported is Some && evidence.limits is None ==> reported->0 == reports[k]->0
            &&& last is Some ==> runs(last->0) && recorded is Some
                && recorded->0.outcome is Succeeded
            &&& some_report_runs(reports) ==> last is Some && last == reported
            &&& stream_runs(evidence.limits) && !is_last_report(reports, k) ==> last == written
        }),
{
    let (written, start) = evidence.spec_check_pool(snapshots, profile_id, checked_at);
    law_polling_keeps_the_last_report(start, reports);
    account_window_warmup::law_polling_is_bounded_and_faithful(start, reports);
    if some_report_runs(reports) {
        let i = choose|i: int|
            0 <= i < reports.len() && (#[trigger] reports[i]) is Some && runs(reports[i]->0);
        assert(reports[i] is Some);
    }
    if !is_last_report(reports, k) {
        assert(account_window_warmup::after_reports(start, reports).usage is None);
    }
}

/// A stream ends with its completion or a tool call, and with nothing else; limits that it reports
/// are taken in, and every other event leaves the request as it is.
pub proof fn law_stream_ends_with_completion_or_a_tool_call(
    request: WarmupRequest,
    event: account_window_warmup::WarmupEvent,
)
    ensures
        request.after_event(event).1 is Some <==> event is Completed || event is ToolCall,
        request.after_event(event).1 matches Some(end) ==> end is Ended,
        event matches account_window_warmup::WarmupEvent::RateLimits(limits)
            ==> request.after_event(event).0 == request.with_rate_limits(limits),
        event !is RateLimits ==> request.after_event(event).0 == request,
        event is RateLimits ==> request.after_event(event).0.observed is Some,
        request.after_event(event).0.model == request.model,
        request.after_event(event).0.fallback_models == request.fallback_models,
        request.after_event(event).0.attempted_at == request.attempted_at,
{
}

} // verus!
