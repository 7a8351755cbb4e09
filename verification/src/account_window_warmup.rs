//! Warmup of the primary (5h) window of standby accounts.
//!
//! The window of an account does not start while its usage stays at 0%. Warmup sends a tiny request
//! with a standby account's own credentials, without making that account active, and then watches
//! the reported usage for proof that the window started.
//!
//! One warmup is a chain of steps: [`warmup_models`], [`begin_warmup`], [`WarmupRequest::on_event`],
//! [`WarmupRequest::finish`], [`StreamEvidence::check_pool`], [`UsageVerification`],
//! [`UsageVerification::after_usage`] and [`WarmupConclusion::finish`]. Between two steps the host
//! talks to the backend and the pool.
use vstd::prelude::*;

use crate::accounts;
use crate::accounts::AccountPoolSnapshot;
use crate::accounts::AccountRateLimits;
use crate::accounts::ProfileAuthManager;
use crate::accounts::RateLimitSnapshot;
use crate::accounts::WindowWarmupObservation;
use crate::accounts::WindowWarmupOutcome;
use crate::execution_auth;
use crate::execution_auth::convert_rate_limits;
use crate::percent::Percent;
use crate::seqs;
use crate::text;
use crate::text::same_text;
use crate::time::UtcTime;

verus! {

/// Longest cool-down after repeated warmup failures, in seconds.
pub const MAX_FAILURE_BACKOFF_SECONDS: u64 = 21600;

/// A successful warmup is not repeated for this many seconds.
pub const SUCCESS_DEBOUNCE_SECONDS: u64 = 300;

/// Cool-down of an account without ChatGPT credentials, in seconds.
pub const SKIPPED_AUTH_BACKOFF_SECONDS: u64 = 1800;

/// Cool-down where no model can be used for warmup, in seconds.
pub const EMPTY_CATALOG_BACKOFF_SECONDS: u64 = 21600;

/// Longest pause between two passes while a standby account is needed soon, in seconds.
pub const URGENT_WARMUP_INTERVAL_SECONDS: u64 = 300;

/// Pause before the first pass, in seconds: quota probes land first.
pub const INITIAL_WARMUP_SETTLE_SECONDS: u64 = 30;

/// How often the usage of an account is asked for after its warmup.
pub const USAGE_ATTEMPTS: usize = 4;

#[derive(Clone, Copy, Debug, PartialEq, Eq, Structural)]
pub enum FailureKind {
    /// Transport or API error, or a timeout before the primary window moves.
    Hard,
    /// The request completed but the window stayed at 0%.
    Noop,
}

/// Cool-down after a streak of failures. Hard failures wait 5 min, 15 min, 45 min, 3 h and then
/// 6 h; requests that left the window at 0% wait 30 min, 2 h and then 6 h.
pub open spec fn backoff_seconds(kind: FailureKind, consecutive_failures: u32) -> u64 {
    match kind {
        FailureKind::Hard => if consecutive_failures <= 1 {
            300
        } else if consecutive_failures == 2 {
            900
        } else if consecutive_failures == 3 {
            2700
        } else if consecutive_failures == 4 {
            10800
        } else {
            MAX_FAILURE_BACKOFF_SECONDS
        },
        FailureKind::Noop => if consecutive_failures <= 1 {
            1800
        } else if consecutive_failures == 2 {
            7200
        } else {
            MAX_FAILURE_BACKOFF_SECONDS
        },
    }
}

/// Cool-down after a streak of failures, in seconds.
pub fn backoff_for_streak(kind: FailureKind, consecutive_failures: u32) -> (seconds: u64)
    ensures
        seconds == backoff_seconds(kind, consecutive_failures),
{
    let streak: u32 = if consecutive_failures < 1 {
        1
    } else {
        consecutive_failures
    };
    match kind {
        FailureKind::Hard => match streak {
            1 => 5 * 60,
            2 => 15 * 60,
            3 => 45 * 60,
            4 => 3 * 60 * 60,
            _ => MAX_FAILURE_BACKOFF_SECONDS,
        },
        FailureKind::Noop => match streak {
            1 => 30 * 60,
            2 => 2 * 60 * 60,
            _ => MAX_FAILURE_BACKOFF_SECONDS,
        },
    }
}

/// A longer streak never waits less, no streak waits longer than six hours, and a request that was
/// in vain waits at least as long as a failed one.
pub proof fn law_backoff_escalates_up_to_a_cap(kind: FailureKind, shorter: u32, longer: u32)
    requires
        shorter <= longer,
    ensures
        0 < backoff_seconds(kind, shorter) <= backoff_seconds(kind, longer)
            <= MAX_FAILURE_BACKOFF_SECONDS,
        backoff_seconds(FailureKind::Hard, shorter) <= backoff_seconds(FailureKind::Noop, shorter),
{
}

/// Failures in a row so far: those of the last observation, where that one failed.
pub open spec fn previous_streak(
    snapshots: Seq<AccountPoolSnapshot>,
    profile_id: Seq<char>,
) -> u32 {
    match accounts::spec_find_profile(snapshots, profile_id) {
        Some(index) => match snapshots[index].window_warmup {
            Some(observation) => if observation.outcome == WindowWarmupOutcome::Failed {
                observation.consecutive_failures
            } else {
                0
            },
            None => 0,
        },
        None => 0,
    }
}

/// What is recorded of a failed warmup: a streak one longer than before, and a retry after its
/// cool-down or after `backoff_override`.
pub open spec fn failure_observation(
    snapshots: Seq<AccountPoolSnapshot>,
    profile_id: Seq<char>,
    attempted_at: UtcTime,
    kind: FailureKind,
    backoff_override: Option<u64>,
) -> WindowWarmupObservation {
    let failures = previous_streak(snapshots, profile_id).saturating_add(1);
    WindowWarmupObservation {
        outcome: WindowWarmupOutcome::Failed,
        attempted_at,
        retry_after: Some(
            attempted_at.spec_plus(
                match backoff_override {
                    Some(seconds) => seconds,
                    None => backoff_seconds(kind, failures),
                },
            ),
        ),
        consecutive_failures: failures,
    }
}

pub fn record_failure(
    snapshots: &Vec<AccountPoolSnapshot>,
    profile_id: &String,
    attempted_at: UtcTime,
    kind: FailureKind,
    backoff_override: Option<u64>,
) -> (observation: WindowWarmupObservation)
    ensures
        observation == failure_observation(
            snapshots@,
            profile_id@,
            attempted_at,
            kind,
            backoff_override,
        ),
{
    let previous: u32 = match accounts::find_profile(snapshots, profile_id) {
        Some(index) => match snapshots[index].window_warmup {
            Some(observation) => match observation.outcome {
                WindowWarmupOutcome::Failed => observation.consecutive_failures,
                _ => 0,
            },
            None => 0,
        },
        None => 0,
    };
    let consecutive_failures: u32 = previous.saturating_add(1);
    let backoff: u64 = match backoff_override {
        Some(seconds) => seconds,
        None => backoff_for_streak(kind, consecutive_failures),
    };
    WindowWarmupObservation {
        outcome: WindowWarmupOutcome::Failed,
        attempted_at,
        retry_after: Some(attempted_at.plus(backoff)),
        consecutive_failures,
    }
}

/// Whether a snapshot is of the Codex limit: it says so, or it names no limit.
pub open spec fn is_codex_limit(snapshot: RateLimitSnapshot) -> bool {
    snapshot.limit_id is None || snapshot.limit_id->0@ == "codex"@
}

/// Usage of the primary window; 0 where none is reported.
pub open spec fn primary_used(snapshot: RateLimitSnapshot) -> Percent {
    match snapshot.primary {
        Some(window) => window.used_percent,
        None => Percent::zero(),
    }
}

/// Whether a snapshot says more than the one at hand: of the two, that of the Codex limit counts,
/// and of two alike the one with the higher usage.
pub open spec fn is_preferred(current: RateLimitSnapshot, incoming: RateLimitSnapshot) -> bool {
    if is_codex_limit(current) != is_codex_limit(incoming) {
        is_codex_limit(incoming)
    } else {
        primary_used(incoming).is_above(primary_used(current))
    }
}

/// Of the snapshot at hand, if any, and an incoming one, the one that says more.
pub open spec fn preferred_of(
    current: Option<RateLimitSnapshot>,
    incoming: RateLimitSnapshot,
) -> RateLimitSnapshot {
    if current is Some && !is_preferred(current->0, incoming) {
        current->0
    } else {
        incoming
    }
}

fn names_codex_limit(snapshot: &RateLimitSnapshot) -> (codex: bool)
    ensures
        codex == is_codex_limit(*snapshot),
{
    match &snapshot.limit_id {
        Some(id) => same_text(id.as_str(), "codex"),
        None => true,
    }
}

fn used_of_primary(snapshot: &RateLimitSnapshot) -> (used: Percent)
    ensures
        used == primary_used(*snapshot),
{
    match &snapshot.primary {
        Some(window) => window.used_percent,
        None => Percent::from_bits(0),
    }
}

/// Of two snapshots of one stream, the one that says more.
pub fn prefer_rate_limit_snapshot(
    current: Option<RateLimitSnapshot>,
    incoming: RateLimitSnapshot,
) -> (preferred: RateLimitSnapshot)
    ensures
        preferred == preferred_of(current, incoming),
{
    let current = match current {
        Some(current) => current,
        None => {
            return incoming;
        },
    };
    let incoming_is_codex = names_codex_limit(&incoming);
    let current_is_codex = names_codex_limit(&current);
    let take_incoming = if incoming_is_codex != current_is_codex {
        incoming_is_codex
    } else {
        used_of_primary(&incoming).gt(used_of_primary(&current))
    };
    if take_incoming {
        incoming
    } else {
        current
    }
}

/// Whether the primary window is in use.
pub open spec fn primary_started(limits: AccountRateLimits) -> bool {
    limits.primary is Some && limits.primary->0.used_percent.is_above(Percent::zero())
}

pub fn account_primary_started(limits: &AccountRateLimits) -> (started: bool)
    ensures
        started == primary_started(*limits),
{
    match limits.primary {
        Some(window) => window.used_percent.gt(Percent::from_bits(0)),
        None => false,
    }
}

/// Whether the pool shows the primary window of a profile in use.
pub open spec fn pool_shows_start(
    snapshots: Seq<AccountPoolSnapshot>,
    profile_id: Seq<char>,
) -> bool {
    match accounts::spec_find_profile(snapshots, profile_id) {
        Some(index) => primary_started(snapshots[index].rate_limits),
        None => false,
    }
}

pub fn primary_window_started(snapshots: &Vec<AccountPoolSnapshot>, profile_id: &String) -> (
    started: bool)
    ensures
        started == pool_shows_start(snapshots@, profile_id@),
{
    match accounts::find_profile(snapshots, profile_id) {
        Some(index) => account_primary_started(&snapshots[index].rate_limits),
        None => false,
    }
}

/// Whether an idle report may not replace a started window: the window was in use and is not due for
/// a reset. Usage that is not a number counts as in use.
pub open spec fn keeps_existing_primary(
    existing: AccountRateLimits,
    incoming: AccountRateLimits,
    now: UtcTime,
) -> bool {
    &&& primary_started(existing)
    &&& (incoming.primary is None || Percent::zero().is_at_least(incoming.primary->0.used_percent))
    &&& !(existing.primary->0.resets_at matches Some(resets_at) && resets_at.value() <= now.value())
}

/// Limits after a report came in: the report, except that a window that was started is not set back
/// before its reset, and that a report without a time keeps the time of the last one.
pub open spec fn merged_limits(
    existing: Option<AccountRateLimits>,
    incoming: AccountRateLimits,
    now: UtcTime,
) -> AccountRateLimits {
    match existing {
        None => incoming,
        Some(existing) => AccountRateLimits {
            primary: if keeps_existing_primary(existing, incoming, now) {
                existing.primary
            } else {
                incoming.primary
            },
            secondary: incoming.secondary,
            observed_at: if incoming.observed_at is None {
                existing.observed_at
            } else {
                incoming.observed_at
            },
        },
    }
}

pub fn merge_account_rate_limits_monotonic(
    existing: Option<&AccountRateLimits>,
    incoming: AccountRateLimits,
    now: UtcTime,
) -> (merged: AccountRateLimits)
    ensures
        merged == merged_limits(
            match existing {
                Some(existing) => Some(*existing),
                None => None,
            },
            incoming,
            now,
        ),
{
    let existing = match existing {
        Some(existing) => existing,
        None => {
            return incoming;
        },
    };
    let mut merged = incoming;
    if let Some(existing_primary) = existing.primary {
        if existing_primary.used_percent.gt(Percent::from_bits(0)) {
            let regresses = match merged.primary {
                Some(window) => Percent::from_bits(0).ge(window.used_percent),
                None => true,
            };
            let reset_due = match existing_primary.resets_at {
                Some(resets_at) => !now.is_before(resets_at),
                None => false,
            };
            if regresses && !reset_due {
                merged.primary = Some(existing_primary);
            }
        }
    }
    if merged.observed_at.is_none() {
        merged.observed_at = existing.observed_at;
    }
    merged
}

/// A merge never sets a started window back to idle before its reset is due.
pub proof fn law_merge_never_regresses_a_started_window(
    existing: AccountRateLimits,
    incoming: AccountRateLimits,
    now: UtcTime,
)
    requires
        primary_started(existing),
        existing.primary->0.resets_at matches Some(resets_at) ==> resets_at.value() > now.value(),
        incoming.primary is Some ==> !incoming.primary->0.used_percent.is_nan(),
    ensures
        primary_started(merged_limits(Some(existing), incoming, now)),
        primary_started(incoming) ==> merged_limits(Some(existing), incoming, now).primary
            == incoming.primary,
{
}

/// Whether limits are named after Codex.
pub open spec fn is_named_after_codex() -> spec_fn(RateLimitSnapshot) -> bool {
    |snapshot: RateLimitSnapshot| text::opt_text(snapshot.limit_id) == Some("codex"@)
}

/// Which of the reported limits counts: the first that is named after Codex, else the first.
pub open spec fn usage_choice(reported: Seq<RateLimitSnapshot>) -> Option<int> {
    match seqs::first_where(reported, is_named_after_codex()) {
        Some(index) => Some(index),
        None => if reported.len() > 0 {
            Some(0)
        } else {
            None
        },
    }
}

/// Which of the reported limits counts.
pub fn choose_usage_snapshot(reported: &Vec<RateLimitSnapshot>) -> (choice: Option<usize>)
    ensures
        match choice {
            Some(index) => index < reported@.len() && usage_choice(reported@) == Some(
                index as int,
            ),
            None => usage_choice(reported@) is None,
        },
{
    let ghost named = is_named_after_codex();
    let mut i: usize = 0;
    while i < reported.len()
        invariant
            i <= reported@.len(),
            named == is_named_after_codex(),
            forall|j: int| 0 <= j < i ==> !named(#[trigger] reported@[j]),
        decreases reported@.len() - i,
    {
        let codex = match &reported[i].limit_id {
            Some(id) => same_text(id.as_str(), "codex"),
            None => false,
        };
        if codex {
            proof {
                seqs::lemma_first_where_is(reported@, named, i as int);
            }
            return Some(i);
        }
        i = i + 1;
    }
    proof {
        seqs::lemma_first_where(reported@, named);
    }
    if reported.len() > 0 {
        Some(0)
    } else {
        None
    }
}

/// Limits of an account from what its usage endpoint reported, or `None` where the request failed or
/// timed out.
pub fn refresh_rate_limits_via_get(
    reported: Option<&Vec<RateLimitSnapshot>>,
    observed_at: UtcTime,
) -> (limits: Option<AccountRateLimits>)
    ensures
        limits == (if reported is Some && usage_choice(reported->0@) is Some {
            Some(
                execution_auth::spec_convert_limits(
                    reported->0@[usage_choice(reported->0@)->0],
                    observed_at,
                ),
            )
        } else {
            None
        }),
{
    match reported {
        Some(reported) => match choose_usage_snapshot(reported) {
            Some(index) => Some(convert_rate_limits(&reported[index], observed_at)),
            None => None,
        },
        None => None,
    }
}

/// A running warmup request of one profile.
#[derive(Clone, Debug, PartialEq, Eq)]
pub struct WarmupRequest {
    pub attempted_at: UtcTime,
    /// Model of this request.
    pub model: String,
    /// Models to fall back to, in order, where the account cannot use this one.
    pub fallback_models: Vec<String>,
    /// The most telling rate limits of the stream so far.
    pub observed: Option<RateLimitSnapshot>,
}

/// How a warmup starts: with a request, or with nothing but an observation.
#[derive(Clone, Debug, PartialEq, Eq)]
pub enum WarmupStart {
    Request(WarmupRequest),
    Finished(WindowWarmupObservation),
}

/// The models to try, in order: the session's own, then the default of the catalog, each where there
/// is one, and no model twice.
pub open spec fn models_to_try(
    session: Option<String>,
    catalog_default: Option<String>,
) -> Seq<String> {
    match (session, catalog_default) {
        (None, None) => Seq::empty(),
        (Some(model), None) => seq![model],
        (None, Some(model)) => seq![model],
        (Some(model), Some(fallback)) => if model@ == fallback@ {
            seq![model]
        } else {
            seq![model, fallback]
        },
    }
}

/// The models to try, in order. `session` is the model of the session, where the account can use it;
/// `catalog_default` is the default of the catalog, where it has one.
pub fn warmup_models(session: Option<String>, catalog_default: Option<String>) -> (models: Vec<
    String,
>)
    ensures
        models@ == models_to_try(session, catalog_default),
{
    let mut models: Vec<String> = Vec::new();
    match (session, catalog_default) {
        (None, None) => {},
        (Some(model), None) => {
            models.push(model);
        },
        (None, Some(model)) => {
            models.push(model);
        },
        (Some(model), Some(fallback)) => {
            let same = same_text(model.as_str(), fallback.as_str());
            models.push(model);
            if !same {
                models.push(fallback);
            }
        },
    }
    models
}

/// How the warmup of a profile starts: not at all without a login, with a failure where there is no
/// model to try, else with a request for the first model.
pub open spec fn starts_with(
    has_chatgpt_auth: bool,
    models: Seq<String>,
    snapshots: Seq<AccountPoolSnapshot>,
    profile_id: Seq<char>,
    attempted_at: UtcTime,
    start: WarmupStart,
) -> bool {
    if !has_chatgpt_auth {
        start == WarmupStart::Finished(
            WindowWarmupObservation {
                outcome: WindowWarmupOutcome::SkippedNoAuth,
                attempted_at,
                retry_after: Some(attempted_at.spec_plus(SKIPPED_AUTH_BACKOFF_SECONDS)),
                consecutive_failures: 0,
            },
        )
    } else if models.len() == 0 {
        start == WarmupStart::Finished(
            failure_observation(
                snapshots,
                profile_id,
                attempted_at,
                FailureKind::Hard,
                Some(EMPTY_CATALOG_BACKOFF_SECONDS),
            ),
        )
    } else {
        &&& start matches WarmupStart::Request(request)
        &&& request.attempted_at == attempted_at
        &&& request.model == models[0]
        &&& request.fallback_models@ == models.skip(1)
        &&& request.observed is None
    }
}

/// Starts the warmup of a profile. `models` are the models to try, as [`warmup_models`] gives them.
pub fn begin_warmup(
    has_chatgpt_auth: bool,
    models: Vec<String>,
    snapshots: &Vec<AccountPoolSnapshot>,
    profile_id: &String,
    attempted_at: UtcTime,
) -> (start: WarmupStart)
    ensures
        starts_with(
            has_chatgpt_auth,
            models@,
            snapshots@,
            profile_id@,
            attempted_at,
            start,
        ),
{
    if !has_chatgpt_auth {
        return WarmupStart::Finished(
            WindowWarmupObservation {
                outcome: WindowWarmupOutcome::SkippedNoAuth,
                attempted_at,
                retry_after: Some(attempted_at.plus(SKIPPED_AUTH_BACKOFF_SECONDS)),
                consecutive_failures: 0,
            },
        );
    }
    let mut models = models;
    if models.len() == 0 {
        return WarmupStart::Finished(
            record_failure(
                snapshots,
                profile_id,
                attempted_at,
                FailureKind::Hard,
                Some(EMPTY_CATALOG_BACKOFF_SECONDS),
            ),
        );
    }
    let ghost all = models@;
    let model = models.remove(0);
    assert(models@ =~= all.skip(1));
    WarmupStart::Request(
        WarmupRequest { attempted_at, model, fallback_models: models, observed: None },
    )
}

/// How the response stream of a warmup request ended.
#[derive(Clone, Copy, Debug, PartialEq, Eq, Structural)]
pub enum StreamEnd {
    /// The response completed, called a tool, or simply ended.
    Ended,
    /// The account cannot use the model of the request.
    UnusableModel,
    /// The agent identity of the account could not be registered, so nothing was sent.
    AgentIdentityUnavailable,
    /// Any other request or stream error.
    Failed,
    TimedOut,
}

/// An event of the response stream of a warmup request.
#[derive(Clone, Debug, PartialEq, Eq)]
pub enum WarmupEvent {
    RateLimits(RateLimitSnapshot),
    Completed,
    /// The model calls a tool.
    ToolCall,
    Other,
}

/// What a finished request leads to.
#[derive(Clone, Debug, PartialEq, Eq)]
pub enum AfterStream {
    /// Send another request, with the next model.
    Retry(WarmupRequest),
    /// The warmup is over; what is recorded of it, if anything.
    Finished(Option<WindowWarmupObservation>),
    /// The request went through: look for proof that the window started.
    Verify(StreamEvidence),
}

/// What the stream of a warmup request showed.
#[derive(Clone, Debug, PartialEq, Eq)]
pub struct StreamEvidence {
    pub attempted_at: UtcTime,
    pub limits: Option<RateLimitSnapshot>,
}

/// Whether stream limits show the primary window in use.
pub open spec fn stream_shows_start(limits: Option<RateLimitSnapshot>) -> bool {
    &&& limits is Some
    &&& limits->0.primary is Some
    &&& limits->0.primary->0.used_percent.is_above(Percent::zero())
}

fn stream_started(limits: &Option<RateLimitSnapshot>) -> (started: bool)
    ensures
        started == stream_shows_start(*limits),
{
    match limits {
        Some(snapshot) => match &snapshot.primary {
            Some(window) => window.used_percent.gt(Percent::from_bits(0)),
            None => false,
        },
        None => false,
    }
}

impl WarmupRequest {
    /// The request after rate limits that the stream reported: the more telling ones are kept.
    pub open spec fn with_rate_limits(self, snapshot: RateLimitSnapshot) -> WarmupRequest {
        WarmupRequest {
            observed: Some(preferred_of(self.observed, snapshot)),
            ..self
        }
    }

    /// Takes in rate limits that the stream reported.
    pub fn on_rate_limits(self, snapshot: RateLimitSnapshot) -> (request: WarmupRequest)
        ensures
            request == self.with_rate_limits(snapshot),
    {
        let preferred = prefer_rate_limit_snapshot(self.observed, snapshot);
        WarmupRequest {
            attempted_at: self.attempted_at,
            model: self.model,
            fallback_models: self.fallback_models,
            observed: Some(preferred),
        }
    }

    /// The request after one event of the stream, and the end of the stream, where the event is one.
    pub open spec fn after_event(self, event: WarmupEvent) -> (WarmupRequest, Option<StreamEnd>) {
        match event {
            WarmupEvent::RateLimits(snapshot) => (self.with_rate_limits(snapshot), None),
            WarmupEvent::Completed => (self, Some(StreamEnd::Ended)),
            WarmupEvent::ToolCall => (self, Some(StreamEnd::Ended)),
            WarmupEvent::Other => (self, None),
        }
    }

    /// Takes in one event of the stream; with the end of the stream, where the event is one. A tool
    /// call is: the model has generated, and nobody runs the tool.
    pub fn on_event(self, event: WarmupEvent) -> (next: (WarmupRequest, Option<StreamEnd>))
        ensures
            next == self.after_event(event),
    {
        match event {
            WarmupEvent::RateLimits(snapshot) => (self.on_rate_limits(snapshot), None),
            WarmupEvent::Completed => (self, Some(StreamEnd::Ended)),
            WarmupEvent::ToolCall => (self, Some(StreamEnd::Ended)),
            WarmupEvent::Other => (self, None),
        }
    }

    /// What the end of a request leads to.
    pub open spec fn leads_to(
        self,
        end: StreamEnd,
        snapshots: Seq<AccountPoolSnapshot>,
        profile_id: Seq<char>,
        next: AfterStream,
    ) -> bool {
        match end {
            StreamEnd::Ended => next == AfterStream::Verify(
                StreamEvidence { attempted_at: self.attempted_at, limits: self.observed },
            ),
            StreamEnd::AgentIdentityUnavailable => next == AfterStream::Finished(None),
            StreamEnd::UnusableModel if self.fallback_models@.len() > 0 => {
                &&& next matches AfterStream::Retry(request)
                &&& request.attempted_at == self.attempted_at
                &&& request.model == self.fallback_models@[0]
                &&& request.fallback_models@ == self.fallback_models@.skip(1)
                &&& request.observed is None
            },
            StreamEnd::TimedOut if stream_shows_start(self.observed) => next
                == AfterStream::Verify(
                StreamEvidence { attempted_at: self.attempted_at, limits: self.observed },
            ),
            _ => next == AfterStream::Finished(
                Some(
                    failure_observation(
                        snapshots,
                        profile_id,
                        self.attempted_at,
                        FailureKind::Hard,
                        None,
                    ),
                ),
            ),
        }
    }

    /// Ends the request. A timeout after limits that show a started window is as good as an end.
    pub fn finish(
        self,
        end: StreamEnd,
        snapshots: &Vec<AccountPoolSnapshot>,
        profile_id: &String,
    ) -> (next: AfterStream)
        ensures
            self.leads_to(end, snapshots@, profile_id@, next),
    {
        let verify = match end {
            StreamEnd::Ended => true,
            StreamEnd::TimedOut => stream_started(&self.observed),
            _ => false,
        };
        if verify {
            return AfterStream::Verify(
                StreamEvidence { attempted_at: self.attempted_at, limits: self.observed },
            );
        }
        match end {
            StreamEnd::AgentIdentityUnavailable => {
                return AfterStream::Finished(None);
            },
            StreamEnd::UnusableModel => {
                let mut models = self.fallback_models;
                if models.len() > 0 {
                    let ghost all = models@;
                    let model = models.remove(0);
                    assert(models@ =~= all.skip(1));
                    return AfterStream::Retry(
                        WarmupRequest {
                            attempted_at: self.attempted_at,
                            model,
                            fallback_models: models,
                            observed: None,
                        },
                    );
                }
            },
            _ => {},
        }
        AfterStream::Finished(
            Some(
                record_failure(
                    snapshots,
                    profile_id,
                    self.attempted_at,
                    FailureKind::Hard,
                    None,
                ),
            ),
        )
    }
}

/// Polling of the usage endpoint after a warmup request.
#[derive(Clone, Copy, Debug, PartialEq, Eq, Structural)]
pub struct UsageVerification {
    pub attempted_at: UtcTime,
    /// The stream showed the window in use.
    pub stream_started: bool,
    /// Reports may be written to the pool: the profile is on standby, or the stream proved a start.
    pub may_write: bool,
    /// Limits of the stream.
    pub stream_limits: Option<AccountRateLimits>,
    /// Requests made so far.
    pub attempts: usize,
    /// The last report, or the first that shows the window in use.
    pub usage: Option<AccountRateLimits>,
    /// No more requests are needed.
    pub settled: bool,
}

/// Whether the pool has a profile that is not the active one.
pub open spec fn is_standby(snapshots: Seq<AccountPoolSnapshot>, profile_id: Seq<char>) -> bool {
    match accounts::spec_find_profile(snapshots, profile_id) {
        Some(index) => !snapshots[index].is_active,
        None => false,
    }
}

impl StreamEvidence {
    /// The limits to write after the stream, and the polling to do.
    pub open spec fn spec_check_pool(
        self,
        snapshots: Seq<AccountPoolSnapshot>,
        profile_id: Seq<char>,
        now: UtcTime,
    ) -> (Option<AccountRateLimits>, UsageVerification) {
        let started = stream_shows_start(self.limits);
        let may_write = is_standby(snapshots, profile_id) || started;
        let limits = match self.limits {
            Some(snapshot) => Some(execution_auth::spec_convert_limits(snapshot, now)),
            None => None,
        };
        (
            if may_write {
                limits
            } else {
                None
            },
            UsageVerification {
                attempted_at: self.attempted_at,
                stream_started: started,
                may_write,
                stream_limits: limits,
                attempts: 0,
                usage: None,
                settled: false,
            },
        )
    }

    /// Looks at the pool after the stream. Returns the limits to write now, if any, and the polling
    /// to do. A profile that became active meanwhile has fresher limits of its own: the stream's
    /// are kept only where they prove a start.
    pub fn check_pool(
        self,
        snapshots: &Vec<AccountPoolSnapshot>,
        profile_id: &String,
        now: UtcTime,
    ) -> (checked: (Option<AccountRateLimits>, UsageVerification))
        ensures
            checked == self.spec_check_pool(snapshots@, profile_id@, now),
    {
        let started = stream_started(&self.limits);
        let standby = match accounts::find_profile(snapshots, profile_id) {
            Some(index) => !snapshots[index].is_active,
            None => false,
        };
        let limits = match &self.limits {
            Some(snapshot) => Some(convert_rate_limits(snapshot, now)),
            None => None,
        };
        let may_write = standby || started;
        let write = if may_write {
            limits
        } else {
            None
        };
        (
            write,
            UsageVerification {
                attempted_at: self.attempted_at,
                stream_started: started,
                may_write,
                stream_limits: limits,
                attempts: 0,
                usage: None,
                settled: false,
            },
        )
    }
}

/// Pause before each request to the usage endpoint, in seconds.
pub open spec fn usage_delay(attempt: int) -> u64 {
    if attempt == 0 {
        0
    } else if attempt == 1 {
        1
    } else if attempt == 2 {
        2
    } else {
        4
    }
}

impl UsageVerification {
    /// Seconds to wait before the next request; `None` where no more is needed.
    pub fn next_delay(&self) -> (delay: Option<u64>)
        ensures
            delay == (if self.settled || self.attempts >= USAGE_ATTEMPTS {
                None
            } else {
                Some(usage_delay(self.attempts as int))
            }),
    {
        if self.settled || self.attempts >= USAGE_ATTEMPTS {
            None
        } else {
            match self.attempts {
                0 => Some(0),
                1 => Some(1),
                2 => Some(2),
                _ => Some(4),
            }
        }
    }

    /// The polling after one more report. A report of a started window settles it; so does any
    /// first report where the stream proved the start.
    pub open spec fn spec_on_usage(self, report: Option<AccountRateLimits>) -> UsageVerification {
        match report {
            None => UsageVerification { attempts: (self.attempts + 1) as usize, ..self },
            Some(limits) => UsageVerification {
                attempts: (self.attempts + 1) as usize,
                usage: Some(limits),
                settled: primary_started(limits) || (self.stream_started && self.attempts == 0),
                ..self
            },
        }
    }

    /// Takes in one report of the usage endpoint; `None` for a failed request.
    pub fn on_usage(&mut self, report: Option<AccountRateLimits>)
        requires
            !old(self).settled,
            old(self).attempts < USAGE_ATTEMPTS,
        ensures
            *final(self) == old(self).spec_on_usage(report),
    {
        let first = self.attempts == 0;
        self.attempts = self.attempts + 1;
        if let Some(limits) = report {
            self.usage = Some(limits);
            self.settled = account_primary_started(&limits) || (self.stream_started && first);
        }
    }
}

/// The end of a warmup, once everything that could be learnt was.
#[derive(Clone, Copy, Debug, PartialEq, Eq, Structural)]
pub struct WarmupConclusion {
    pub attempted_at: UtcTime,
    /// The stream or the usage endpoint showed the window in use.
    pub started: bool,
    /// The profile became active and nothing proved a start: nothing is recorded.
    pub abandoned: bool,
    /// The best limits known.
    pub best_limits: Option<AccountRateLimits>,
}

impl UsageVerification {
    /// Whether the last report shows the window in use.
    pub open spec fn usage_shows_start(self) -> bool {
        self.usage is Some && primary_started(self.usage->0)
    }

    /// The limits to write after the polling, and what it came to.
    pub open spec fn spec_after_usage(self, now: UtcTime) -> (
        Option<AccountRateLimits>,
        WarmupConclusion,
    ) {
        let wanted = self.may_write || self.usage_shows_start();
        let merged = match self.usage {
            Some(usage) => Some(merged_limits(self.stream_limits, usage, now)),
            None => None,
        };
        (
            if wanted {
                merged
            } else {
                None
            },
            WarmupConclusion {
                attempted_at: self.attempted_at,
                started: self.stream_started || self.usage_shows_start(),
                abandoned: !wanted,
                best_limits: if wanted && merged is Some {
                    merged
                } else {
                    self.stream_limits
                },
            },
        )
    }

    /// Ends the polling. Returns the limits to write, if any: the last report, merged with what the
    /// stream showed.
    pub fn after_usage(self, now: UtcTime) -> (ended: (Option<AccountRateLimits>, WarmupConclusion))
        ensures
            ended == self.spec_after_usage(now),
    {
        let usage_started = match &self.usage {
            Some(usage) => account_primary_started(usage),
            None => false,
        };
        let wanted = self.may_write || usage_started;
        let merged = match self.usage {
            Some(usage) => Some(
                merge_account_rate_limits_monotonic(self.stream_limits.as_ref(), usage, now),
            ),
            None => None,
        };
        let write = if wanted {
            merged
        } else {
            None
        };
        let best_limits = if write.is_some() {
            write
        } else {
            self.stream_limits
        };
        (
            write,
            WarmupConclusion {
                attempted_at: self.attempted_at,
                started: self.stream_started || usage_started,
                abandoned: !wanted,
                best_limits,
            },
        )
    }
}

impl WarmupConclusion {
    /// Whether there is proof that the window started, from this warmup or from the pool.
    pub open spec fn is_proved(
        self,
        snapshots: Seq<AccountPoolSnapshot>,
        profile_id: Seq<char>,
    ) -> bool {
        self.started || pool_shows_start(snapshots, profile_id)
    }

    /// The limits to write at the end of a warmup, and what is recorded of it.
    pub open spec fn spec_finish(self, snapshots: Seq<AccountPoolSnapshot>, profile_id: Seq<char>) -> (
        Option<AccountRateLimits>,
        Option<WindowWarmupObservation>,
    ) {
        if self.abandoned {
            (None, None)
        } else if self.is_proved(snapshots, profile_id) {
            (
                if self.best_limits is Some && primary_started(self.best_limits->0) {
                    self.best_limits
                } else {
                    None
                },
                Some(
                    WindowWarmupObservation {
                        outcome: WindowWarmupOutcome::Succeeded,
                        attempted_at: self.attempted_at,
                        retry_after: Some(
                            self.attempted_at.spec_plus(SUCCESS_DEBOUNCE_SECONDS),
                        ),
                        consecutive_failures: 0,
                    },
                ),
            )
        } else {
            (
                None,
                Some(
                    failure_observation(
                        snapshots,
                        profile_id,
                        self.attempted_at,
                        FailureKind::Noop,
                        None,
                    ),
                ),
            )
        }
    }

    /// What is recorded of the warmup, with the limits to write first. Own evidence counts before
    /// the pool's: a concurrent refresh can set the pool back to 0% for a moment.
    pub fn finish(self, snapshots: &Vec<AccountPoolSnapshot>, profile_id: &String) -> (end: (
        Option<AccountRateLimits>,
        Option<WindowWarmupObservation>,
    ))
        ensures
            end == self.spec_finish(snapshots@, profile_id@),
    {
        if self.abandoned {
            return (None, None);
        }
        if !self.started && !primary_window_started(snapshots, profile_id) {
            return (
                None,
                Some(
                    record_failure(
                        snapshots,
                        profile_id,
                        self.attempted_at,
                        FailureKind::Noop,
                        None,
                    ),
                ),
            );
        }
        let write = match self.best_limits {
            Some(limits) => if account_primary_started(&limits) {
                Some(limits)
            } else {
                None
            },
            None => None,
        };
        (
            write,
            Some(
                WindowWarmupObservation {
                    outcome: WindowWarmupOutcome::Succeeded,
                    attempted_at: self.attempted_at,
                    retry_after: Some(self.attempted_at.plus(SUCCESS_DEBOUNCE_SECONDS)),
                    consecutive_failures: 0,
                },
            ),
        )
    }
}

/// The profile that a pass warms up: the first candidate, where its credentials are registered. The
/// result is the position of its credentials.
pub fn warmup_target(candidates: &Vec<String>, managers: &Vec<ProfileAuthManager>) -> (target: Option<
    usize,
>)
    ensures
        match target {
            Some(index) => candidates@.len() > 0 && index < managers@.len()
                && managers@[index as int].profile_id@ == candidates@[0]@ && forall|j: int|
                0 <= j < index ==> (#[trigger] managers@[j]).profile_id@ != candidates@[0]@,
            None => candidates@.len() == 0 || forall|j: int|
                0 <= j < managers@.len() ==> (#[trigger] managers@[j]).profile_id@
                    != candidates@[0]@,
        },
{
    if candidates.len() == 0 {
        return None;
    }
    let mut i: usize = 0;
    while i < managers.len()
        invariant
            candidates@.len() > 0,
            i <= managers@.len(),
            forall|j: int| 0 <= j < i ==> (#[trigger] managers@[j]).profile_id@ != candidates@[0]@,
        decreases managers@.len() - i,
    {
        if managers[i].profile_id == candidates[0] {
            return Some(i);
        }
        i = i + 1;
    }
    None
}

/// Seconds until the next pass.
pub open spec fn pass_delay(enabled: bool, urgent: bool, interval_seconds: u64) -> u64 {
    if enabled && urgent && URGENT_WARMUP_INTERVAL_SECONDS < interval_seconds {
        URGENT_WARMUP_INTERVAL_SECONDS
    } else {
        interval_seconds
    }
}

/// Seconds until the next pass. Where a standby account is needed soon, at most five minutes.
pub fn next_pass_delay(enabled: bool, urgent: bool, interval_seconds: u64) -> (seconds: u64)
    ensures
        seconds == pass_delay(enabled, urgent, interval_seconds),
{
    if enabled && urgent && URGENT_WARMUP_INTERVAL_SECONDS < interval_seconds {
        URGENT_WARMUP_INTERVAL_SECONDS
    } else {
        interval_seconds
    }
}

/// The polling after a series of reports.
pub open spec fn after_reports(
    start: UsageVerification,
    reports: Seq<Option<AccountRateLimits>>,
) -> UsageVerification
    decreases reports.len(),
{
    if reports.len() == 0 {
        start
    } else {
        after_reports(start, reports.drop_last()).spec_on_usage(reports.last())
    }
}

/// Whether every report of a series was asked for: none came after the polling was settled or its
/// requests were used up.
pub open spec fn were_asked_for(
    start: UsageVerification,
    reports: Seq<Option<AccountRateLimits>>,
) -> bool {
    forall|i: int|
        0 <= i < reports.len() ==> {
            &&& !(#[trigger] after_reports(start, reports.take(i))).settled
            &&& after_reports(start, reports.take(i)).attempts < USAGE_ATTEMPTS
        }
}

/// Whether one of the reports shows the window in use.
pub open spec fn some_report_shows_start(reports: Seq<Option<AccountRateLimits>>) -> bool {
    exists|i: int|
        0 <= i < reports.len() && (#[trigger] reports[i]) is Some && primary_started(reports[i]->0)
}

/// Polling makes at most four requests, and its outcome is faithful: the last usage shows a start
/// exactly where one of the reports did.
pub proof fn law_polling_is_bounded_and_faithful(
    start: UsageVerification,
    reports: Seq<Option<AccountRateLimits>>,
)
    requires
        start.attempts == 0,
        start.usage is None,
        !start.settled,
        were_asked_for(start, reports),
    ensures
        after_reports(start, reports).attempts == reports.len() <= USAGE_ATTEMPTS,
        after_reports(start, reports).usage_shows_start() <==> some_report_shows_start(reports),
        after_reports(start, reports).stream_started == start.stream_started,
        after_reports(start, reports).may_write == start.may_write,
        after_reports(start, reports).stream_limits == start.stream_limits,
        after_reports(start, reports).attempted_at == start.attempted_at,
        after_reports(start, reports).usage_shows_start() ==> after_reports(start, reports).settled,
    decreases reports.len(),
{
    if reports.len() > 0 {
        let rest = reports.drop_last();
        let last = reports.len() - 1;
        assert forall|i: int| 0 <= i < rest.len() implies {
            &&& !(#[trigger] after_reports(start, rest.take(i))).settled
            &&& after_reports(start, rest.take(i)).attempts < USAGE_ATTEMPTS
        } by {
            assert(rest.take(i) =~= reports.take(i));
            assert(!after_reports(start, reports.take(i)).settled);
        }
        law_polling_is_bounded_and_faithful(start, rest);
        assert(reports.take(last) =~= rest);
        assert(!after_reports(start, reports.take(last)).settled);
        if some_report_shows_start(rest) {
            assert(false);
        }
        if some_report_shows_start(reports) {
            let i = choose|i: int|
                0 <= i < reports.len() && (#[trigger] reports[i]) is Some && primary_started(
                    reports[i]->0,
                );
            if i < last {
                assert(rest[i] == reports[i]);
            }
        }
        if after_reports(start, reports).usage_shows_start() {
            assert(reports[last] is Some);
        }
    }
}

/// Success is recorded only on proof that the window started (in the stream, in a report of the
/// usage endpoint, or in the pool), and a failure only without any.
pub proof fn law_success_is_recorded_on_proof_only(
    evidence: StreamEvidence,
    standby: bool,
    now: UtcTime,
    reports: Seq<Option<AccountRateLimits>>,
    conclusion: WarmupConclusion,
    snapshots: Seq<AccountPoolSnapshot>,
    profile_id: Seq<char>,
)
    requires
        ({
            let start = UsageVerification {
                attempted_at: evidence.attempted_at,
                stream_started: stream_shows_start(evidence.limits),
                may_write: standby || stream_shows_start(evidence.limits),
                stream_limits: match evidence.limits {
                    Some(snapshot) => Some(execution_auth::spec_convert_limits(snapshot, now)),
                    None => None,
                },
                attempts: 0,
                usage: None,
                settled: false,
            };
            let polled = after_reports(start, reports);
            &&& were_asked_for(start, reports)
            &&& conclusion.started == (polled.stream_started || polled.usage_shows_start())
            &&& conclusion.abandoned == !(polled.may_write || polled.usage_shows_start())
        }),
    ensures
        !conclusion.abandoned && conclusion.is_proved(snapshots, profile_id) ==> {
            ||| stream_shows_start(evidence.limits)
            ||| some_report_shows_start(reports)
            ||| pool_shows_start(snapshots, profile_id)
        },
        !conclusion.is_proved(snapshots, profile_id) ==> {
            &&& !stream_shows_start(evidence.limits)
            &&& !some_report_shows_start(reports)
            &&& !pool_shows_start(snapshots, profile_id)
        },
        conclusion.abandoned ==> !standby && !stream_shows_start(evidence.limits)
            && !some_report_shows_start(reports),
{
    let start = UsageVerification {
        attempted_at: evidence.attempted_at,
        stream_started: stream_shows_start(evidence.limits),
        may_write: standby || stream_shows_start(evidence.limits),
        stream_limits: match evidence.limits {
            Some(snapshot) => Some(execution_auth::spec_convert_limits(snapshot, now)),
            None => None,
        },
        attempts: 0,
        usage: None,
        settled: false,
    };
    law_polling_is_bounded_and_faithful(start, reports);
}

/// A request after all the rate limits that its stream reported.
pub open spec fn after_rate_limits(
    request: WarmupRequest,
    reported: Seq<RateLimitSnapshot>,
) -> WarmupRequest
    decreases reported.len(),
{
    if reported.len() == 0 {
        request
    } else {
        after_rate_limits(request, reported.drop_last()).with_rate_limits(reported.last())
    }
}

/// Whether a snapshot speaks of the limit that a warmup is about: it names no other limit.
pub open spec fn is_about_codex(snapshot: RateLimitSnapshot) -> bool {
    snapshot.limit_id matches Some(id) ==> id@ == "codex"@
}

/// Usage of the short window in a snapshot; none counts as zero.
pub open spec fn short_window_usage(snapshot: RateLimitSnapshot) -> Percent {
    if snapshot.primary is Some {
        snapshot.primary->0.used_percent
    } else {
        Percent { bits: 0 }
    }
}

/// What a stream is taken to show is one of the snapshots that it reported. As soon as one of them is
/// about Codex, it is one about Codex, and of those none has a higher usage, in whatever order they
/// came. So usage of another limit is no proof of a start. Nothing else of the request changes.
pub proof fn law_stream_is_judged_by_the_codex_limit(
    request: WarmupRequest,
    reported: Seq<RateLimitSnapshot>,
    i: int,
)
    requires
        request.observed is None,
        0 <= i < reported.len(),
    ensures
        after_rate_limits(request, reported).observed matches Some(kept) && {
            &&& reported.contains(kept)
            &&& is_about_codex(reported[i]) ==> is_about_codex(kept)
            &&& is_about_codex(kept) == is_about_codex(reported[i]) ==> !short_window_usage(
                reported[i],
            ).is_above(short_window_usage(kept))
        },
        after_rate_limits(request, reported).model == request.model,
        after_rate_limits(request, reported).fallback_models == request.fallback_models,
        after_rate_limits(request, reported).attempted_at == request.attempted_at,
    decreases reported.len(),
{
    let rest = reported.drop_last();
    let last = reported.len() - 1;
    let after = after_rate_limits(request, reported).observed->0;
    if last > 0 {
        let before = after_rate_limits(request, rest).observed->0;
        law_stream_is_judged_by_the_codex_limit(request, rest, 0);
        assert(rest.contains(before));
        let k = choose|k: int| 0 <= k < rest.len() && rest[k] == before;
        assert(reported[k] == before);
        assert(reported[last] == reported.last());
        assert(reported.contains(after));
        if i < last {
            law_stream_is_judged_by_the_codex_limit(request, rest, i);
            assert(rest[i] == reported[i]);
        }
    } else {
        assert(after_rate_limits(request, rest) == request);
        assert(reported[0] == after);
    }
}

/// Where a stream reported the Codex limit, it is proof of a start exactly where the Codex limit is in
/// use in one of its snapshots. Usage that is not a number is left out.
pub proof fn law_stream_proves_a_start_of_the_codex_window(
    request: WarmupRequest,
    reported: Seq<RateLimitSnapshot>,
    i: int,
)
    requires
        request.observed is None,
        0 <= i < reported.len(),
        is_about_codex(reported[i]),
        forall|k: int|
            0 <= k < reported.len() ==> !short_window_usage(#[trigger] reported[k]).is_nan(),
    ensures
        stream_shows_start(after_rate_limits(request, reported).observed) <==> exists|k: int|
            0 <= k < reported.len() && is_about_codex(#[trigger] reported[k])
                && short_window_usage(reported[k]).is_above(Percent { bits: 0 }),
{
    law_stream_is_judged_by_the_codex_limit(request, reported, i);
    let kept = after_rate_limits(request, reported).observed->0;
    if stream_shows_start(Some(kept)) {
        let k = choose|k: int| 0 <= k < reported.len() && reported[k] == kept;
        assert(is_about_codex(reported[k]));
    }
    if exists|k: int|
        0 <= k < reported.len() && is_about_codex(#[trigger] reported[k]) && short_window_usage(
            reported[k],
        ).is_above(Percent { bits: 0 }) {
        let k = choose|k: int|
            0 <= k < reported.len() && is_about_codex(#[trigger] reported[k])
                && short_window_usage(reported[k]).is_above(Percent { bits: 0 });
        law_stream_is_judged_by_the_codex_limit(request, reported, k);
        let m = choose|m: int| 0 <= m < reported.len() && reported[m] == kept;
        assert(!short_window_usage(reported[m]).is_nan());
    }
}

} // verus!
