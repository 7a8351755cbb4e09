use account_pool::account_window_warmup::account_primary_started;
use account_pool::account_window_warmup::backoff_for_streak;
use account_pool::account_window_warmup::begin_warmup;
use account_pool::account_window_warmup::choose_usage_snapshot;
use account_pool::account_window_warmup::merge_account_rate_limits_monotonic;
use account_pool::account_window_warmup::next_pass_delay;
use account_pool::account_window_warmup::prefer_rate_limit_snapshot;
use account_pool::account_window_warmup::record_failure;
use account_pool::account_window_warmup::refresh_rate_limits_via_get;
use account_pool::account_window_warmup::warmup_models;
use account_pool::account_window_warmup::warmup_target;
use account_pool::account_window_warmup::AfterStream;
use account_pool::account_window_warmup::FailureKind;
use account_pool::account_window_warmup::StreamEnd;
use account_pool::account_window_warmup::UsageVerification;
use account_pool::account_window_warmup::WarmupEvent;
use account_pool::account_window_warmup::WarmupRequest;
use account_pool::account_window_warmup::WarmupStart;
use account_pool::account_window_warmup_request::warmup_base_instructions;
use account_pool::account_window_warmup_request::warmup_prompt;
use account_pool::account_window_warmup_request::warmup_responses_metadata;
use account_pool::account_window_warmup_request::warmup_tool_specs;
use account_pool::account_window_warmup_request::BaseInstructions;
use account_pool::account_window_warmup_request::ToolMode;
use account_pool::account_window_warmup_request::WarmupModel;
use account_pool::account_window_warmup_request::WarmupTool;
use account_pool::accounts::AccountAvailability;
use account_pool::accounts::AccountPoolSnapshot;
use account_pool::accounts::AccountProfile;
use account_pool::accounts::AccountRateLimitWindow;
use account_pool::accounts::AccountRateLimits;
use account_pool::accounts::ProfileAuthManager;
use account_pool::accounts::RateLimitSnapshot;
use account_pool::accounts::RateLimitWindow;
use account_pool::accounts::WindowWarmupObservation;
use account_pool::accounts::WindowWarmupOutcome;
use account_pool::config::AccountPoolRotationStrategy;
use account_pool::percent::Percent;
use account_pool::pool_quota::apply_observations;
use account_pool::pool_quota::begin_refresh;
use account_pool::pool_quota::ProfileLimits;
use account_pool::protocol::AccountPoolAccount;
use account_pool::protocol::AccountPoolAvailability;
use account_pool::protocol::AccountPoolRateLimits;
use account_pool::protocol::AccountPoolReadResponse;
use account_pool::protocol::AccountPoolWarmupDebugParams;
use account_pool::time::UtcTime;
use account_pool::warmup_debug::account_pool_warmup_debug_response;
use account_pool::warmup_debug::WarmupLogEntry;
use account_pool::warmup_debug::WarmupTaskState;

const NOW: i64 = 1_800_000_000;

fn at(seconds: i64) -> UtcTime {
    UtcTime::from_timestamp(seconds).unwrap()
}

fn percent(value: f64) -> Percent {
    Percent::from_bits(value.to_bits())
}

fn rate_limit_window(used_percent: f64) -> RateLimitWindow {
    RateLimitWindow {
        used_percent: percent(used_percent),
        window_minutes: Some(300),
        resets_at: None,
    }
}

fn rate_limit_snapshot(limit_id: Option<&str>, used_percent: f64) -> RateLimitSnapshot {
    RateLimitSnapshot {
        limit_id: limit_id.map(str::to_string),
        limit_name: None,
        primary: Some(rate_limit_window(used_percent)),
        secondary: None,
        plan_type: None,
        rate_limit_reached_type: None,
    }
}

fn limits(used_percent: f64) -> AccountRateLimits {
    AccountRateLimits {
        primary: Some(AccountRateLimitWindow {
            used_percent: percent(used_percent),
            resets_at: None,
            window_minutes: Some(300),
        }),
        secondary: None,
        observed_at: Some(at(NOW)),
    }
}

fn snapshot(id: &str, is_active: bool) -> AccountPoolSnapshot {
    AccountPoolSnapshot {
        profile: AccountProfile {
            id: id.to_string(),
            label: None,
            priority: 10,
        },
        availability: AccountAvailability::Available,
        is_active,
        rate_limits: limits(0.0),
        window_warmup: None,
    }
}

#[test]
fn prefer_rate_limit_snapshot_prefers_codex_and_higher_usage() {
    let other = rate_limit_snapshot(Some("codex_other"), 12.0);
    let codex_idle = rate_limit_snapshot(Some("codex"), 0.0);
    let preferred = prefer_rate_limit_snapshot(Some(other), codex_idle.clone());
    assert_eq!(preferred.limit_id.as_deref(), Some("codex"));

    let codex_started = rate_limit_snapshot(Some("codex"), 3.0);
    let preferred = prefer_rate_limit_snapshot(Some(codex_idle), codex_started);
    assert_eq!(
        preferred.primary.as_ref().map(|window| window.used_percent),
        Some(percent(3.0))
    );
}

#[test]
fn merge_account_rate_limits_monotonic_keeps_started_primary() {
    let existing = AccountRateLimits {
        primary: Some(AccountRateLimitWindow {
            used_percent: percent(2.5),
            resets_at: Some(at(NOW + 4 * 3_600)),
            window_minutes: Some(300),
        }),
        secondary: None,
        observed_at: Some(at(NOW - 30)),
    };
    let incoming = AccountRateLimits {
        primary: Some(AccountRateLimitWindow {
            used_percent: percent(0.0),
            resets_at: None,
            window_minutes: Some(300),
        }),
        secondary: None,
        observed_at: Some(at(NOW)),
    };
    let merged = merge_account_rate_limits_monotonic(Some(&existing), incoming, at(NOW));
    assert_eq!(
        merged.primary.as_ref().map(|window| window.used_percent),
        Some(percent(2.5))
    );
    let after_reset =
        merge_account_rate_limits_monotonic(Some(&existing), incoming, at(NOW + 4 * 3_600));
    assert_eq!(after_reset.primary, incoming.primary);
    assert_eq!(
        merge_account_rate_limits_monotonic(None, incoming, at(NOW)),
        incoming
    );
    assert_eq!(
        merge_account_rate_limits_monotonic(Some(&existing), limits(7.0), at(NOW)).primary,
        limits(7.0).primary
    );
}

#[test]
fn backoff_escalates_up_to_six_hours() {
    let hard: Vec<u64> = (0..7)
        .map(|streak| backoff_for_streak(FailureKind::Hard, streak))
        .collect();
    assert_eq!(hard, vec![300, 300, 900, 2_700, 10_800, 21_600, 21_600]);
    let noop: Vec<u64> = (0..5)
        .map(|streak| backoff_for_streak(FailureKind::Noop, streak))
        .collect();
    assert_eq!(noop, vec![1_800, 1_800, 7_200, 21_600, 21_600]);
}

#[test]
fn failures_extend_the_streak_of_their_profile() {
    let mut standby = snapshot("standby", false);
    standby.window_warmup = Some(WindowWarmupObservation {
        outcome: WindowWarmupOutcome::Failed,
        attempted_at: at(NOW - 300),
        retry_after: Some(at(NOW)),
        consecutive_failures: 2,
    });
    let snapshots = vec![snapshot("active", true), standby];
    assert_eq!(
        record_failure(
            &snapshots,
            &"standby".to_string(),
            at(NOW),
            FailureKind::Hard,
            None
        ),
        WindowWarmupObservation {
            outcome: WindowWarmupOutcome::Failed,
            attempted_at: at(NOW),
            retry_after: Some(at(NOW + 2_700)),
            consecutive_failures: 3,
        }
    );
    assert_eq!(
        record_failure(
            &snapshots,
            &"active".to_string(),
            at(NOW),
            FailureKind::Noop,
            Some(42)
        )
        .retry_after,
        Some(at(NOW + 42))
    );
}

fn begin(models: &[&str]) -> WarmupRequest {
    let start = begin_warmup(
        true,
        models.iter().map(|model| model.to_string()).collect(),
        &vec![snapshot("standby", false)],
        &"standby".to_string(),
        at(NOW),
    );
    match start {
        WarmupStart::Request(request) => request,
        WarmupStart::Finished(observation) => panic!("unexpected end: {observation:?}"),
    }
}

#[test]
fn warmup_needs_credentials_and_a_model() {
    let snapshots = vec![snapshot("standby", false)];
    let id = "standby".to_string();
    assert_eq!(
        begin_warmup(false, vec!["m".to_string()], &snapshots, &id, at(NOW)),
        WarmupStart::Finished(WindowWarmupObservation {
            outcome: WindowWarmupOutcome::SkippedNoAuth,
            attempted_at: at(NOW),
            retry_after: Some(at(NOW + 1_800)),
            consecutive_failures: 0,
        })
    );
    assert_eq!(
        begin_warmup(true, vec![], &snapshots, &id, at(NOW)),
        WarmupStart::Finished(WindowWarmupObservation {
            outcome: WindowWarmupOutcome::Failed,
            attempted_at: at(NOW),
            retry_after: Some(at(NOW + 21_600)),
            consecutive_failures: 1,
        })
    );
}

#[test]
fn warmup_still_registers_agent_identity_when_feature_is_on() {
    let next = begin(&["m"]).finish(
        StreamEnd::AgentIdentityUnavailable,
        &vec![snapshot("standby", false)],
        &"standby".to_string(),
    );
    assert_eq!(next, AfterStream::Finished(None));
}

#[test]
fn warmup_retries_catalog_default_after_unusable_model_error() {
    let snapshots = vec![snapshot("standby", false)];
    let id = "standby".to_string();
    let request = begin(&["gpt-5.6-sol", "gpt-6-astra"]);
    let mut models = vec![request.model.clone()];
    let AfterStream::Retry(request) = request.finish(StreamEnd::UnusableModel, &snapshots, &id)
    else {
        panic!("the next model is tried");
    };
    models.push(request.model.clone());
    assert_eq!(
        models,
        vec!["gpt-5.6-sol".to_string(), "gpt-6-astra".to_string()]
    );
    let request = request.on_rate_limits(rate_limit_snapshot(Some("codex"), 1.0));
    let AfterStream::Verify(evidence) = request.finish(StreamEnd::Ended, &snapshots, &id) else {
        panic!("a finished stream is verified");
    };
    let (_, verification) = evidence.check_pool(&snapshots, &id, at(NOW));
    assert_eq!(
        outcome(verification, &snapshots),
        Some(WindowWarmupOutcome::Succeeded)
    );
}

#[test]
fn the_session_model_is_tried_before_the_default() {
    let named = |model: &str| Some(model.to_string());
    assert!(warmup_models(None, None).is_empty());
    assert_eq!(warmup_models(named("a"), None), vec!["a"]);
    assert_eq!(warmup_models(None, named("b")), vec!["b"]);
    assert_eq!(warmup_models(named("a"), named("b")), vec!["a", "b"]);
    assert_eq!(warmup_models(named("a"), named("a")), vec!["a"]);
}

#[test]
fn a_completed_response_or_a_tool_call_ends_a_request() {
    let (request, end) = begin(&["m"]).on_event(WarmupEvent::Other);
    assert_eq!((&request, end), (&begin(&["m"]), None));
    let started = rate_limit_snapshot(Some("codex"), 1.0);
    let (request, end) = request.on_event(WarmupEvent::RateLimits(started.clone()));
    assert_eq!(end, None);
    assert_eq!(request.observed, Some(started.clone()));
    let idle = rate_limit_snapshot(Some("codex"), 0.0);
    let (request, _) = request.on_event(WarmupEvent::RateLimits(idle));
    assert_eq!(request.observed, Some(started));
    let (request, end) = request.on_event(WarmupEvent::ToolCall);
    assert_eq!(end, Some(StreamEnd::Ended));
    let (_, end) = request.on_event(WarmupEvent::Completed);
    assert_eq!(end, Some(StreamEnd::Ended));
}

#[test]
fn the_last_unusable_model_is_a_failure() {
    let snapshots = vec![snapshot("standby", false)];
    let id = "standby".to_string();
    let AfterStream::Finished(Some(observation)) =
        begin(&["m"]).finish(StreamEnd::UnusableModel, &snapshots, &id)
    else {
        panic!("there is no other model");
    };
    assert_eq!(observation.outcome, WindowWarmupOutcome::Failed);
    assert_eq!(observation.retry_after, Some(at(NOW + 300)));
}

fn verify(
    observed: Option<RateLimitSnapshot>,
    pool: &Vec<AccountPoolSnapshot>,
) -> (Option<AccountRateLimits>, UsageVerification) {
    let mut request = begin(&["m"]);
    if let Some(observed) = observed {
        request = request.on_rate_limits(observed);
    }
    let AfterStream::Verify(evidence) =
        request.finish(StreamEnd::Ended, pool, &"standby".to_string())
    else {
        panic!("a finished stream is verified");
    };
    evidence.check_pool(pool, &"standby".to_string(), at(NOW))
}

fn outcome(
    verification: UsageVerification,
    pool: &Vec<AccountPoolSnapshot>,
) -> Option<WindowWarmupOutcome> {
    let (_, conclusion) = verification.after_usage(at(NOW));
    let (_, observation) = conclusion.finish(pool, &"standby".to_string());
    observation.map(|observation| observation.outcome)
}

#[test]
fn warmup_sends_request_without_agent_identity_when_feature_is_off() {
    let pool = vec![snapshot("standby", false)];
    let (write, verification) = verify(Some(rate_limit_snapshot(Some("codex"), 1.0)), &pool);
    assert_eq!(write, Some(limits(1.0)));
    assert_eq!(
        outcome(verification, &pool),
        Some(WindowWarmupOutcome::Succeeded)
    );
}

#[test]
fn warmup_get_verifies_after_profile_becomes_active() {
    let pool = vec![snapshot("standby", true)];
    let (write, mut verification) = verify(None, &pool);
    assert_eq!(write, None);
    assert_eq!(verification.next_delay(), Some(0));
    verification.on_usage(Some(limits(2.0)));
    assert_eq!(verification.next_delay(), None);
    let (write, conclusion) = verification.after_usage(at(NOW));
    assert_eq!(
        write.and_then(|limits| limits.primary).map(|w| w.used_percent),
        Some(percent(2.0))
    );
    let (write, observation) = conclusion.finish(&pool, &"standby".to_string());
    assert_eq!(write, Some(limits(2.0)));
    assert_eq!(
        observation.map(|observation| observation.outcome),
        Some(WindowWarmupOutcome::Succeeded)
    );
}

#[test]
fn warmup_get_verifies_after_tool_call_without_completed() {
    let pool = vec![snapshot("standby", false)];
    let id = "standby".to_string();
    let (request, end) = begin(&["m"]).on_event(WarmupEvent::ToolCall);
    let AfterStream::Verify(evidence) = request.finish(end.unwrap(), &pool, &id) else {
        panic!("a finished stream is verified");
    };
    let (_, mut verification) = evidence.check_pool(&pool, &id, at(NOW));
    verification.on_usage(Some(limits(2.0)));
    assert_eq!(
        outcome(verification, &pool),
        Some(WindowWarmupOutcome::Succeeded)
    );
}

#[test]
fn polling_stops_after_four_reports_without_proof() {
    let pool = vec![snapshot("standby", false)];
    let (_, mut verification) = verify(None, &pool);
    let mut delays = Vec::new();
    while let Some(delay) = verification.next_delay() {
        delays.push(delay);
        verification.on_usage(if delays.len() == 2 {
            None
        } else {
            Some(limits(0.0))
        });
    }
    assert_eq!(delays, vec![0, 1, 2, 4]);
    let (_, conclusion) = verification.after_usage(at(NOW));
    let (write, observation) = conclusion.finish(&pool, &"standby".to_string());
    assert_eq!(write, None);
    assert_eq!(
        observation,
        Some(WindowWarmupObservation {
            outcome: WindowWarmupOutcome::Failed,
            attempted_at: at(NOW),
            retry_after: Some(at(NOW + 1_800)),
            consecutive_failures: 1,
        })
    );
}

#[test]
fn active_profile_without_proof_is_left_alone() {
    let pool = vec![snapshot("standby", true)];
    let (_, mut verification) = verify(None, &pool);
    verification.on_usage(Some(limits(0.0)));
    assert_eq!(outcome(verification, &pool), None);
}

#[test]
fn timeout_after_proof_counts_as_an_end() {
    let pool = vec![snapshot("standby", false)];
    let id = "standby".to_string();
    assert!(matches!(
        begin(&["m"])
            .on_rate_limits(rate_limit_snapshot(None, 1.0))
            .finish(StreamEnd::TimedOut, &pool, &id),
        AfterStream::Verify(_)
    ));
    for end in [StreamEnd::TimedOut, StreamEnd::Failed] {
        assert!(matches!(
            begin(&["m"]).finish(end, &pool, &id),
            AfterStream::Finished(Some(WindowWarmupObservation {
                outcome: WindowWarmupOutcome::Failed,
                ..
            }))
        ));
    }
}

#[test]
fn usage_reports_of_codex_come_first() {
    let reported = vec![
        rate_limit_snapshot(None, 1.0),
        rate_limit_snapshot(Some("other"), 2.0),
        rate_limit_snapshot(Some("codex"), 3.0),
    ];
    assert_eq!(choose_usage_snapshot(&reported), Some(2));
    assert_eq!(choose_usage_snapshot(&reported[..2].to_vec()), Some(0));
    assert_eq!(choose_usage_snapshot(&vec![]), None);
    assert_eq!(
        refresh_rate_limits_via_get(Some(&reported), at(NOW)),
        Some(limits(3.0))
    );
    assert_eq!(refresh_rate_limits_via_get(None, at(NOW)), None);
    assert!(account_primary_started(&limits(0.1)));
    assert!(!account_primary_started(&limits(0.0)));
}

#[test]
fn passes_target_the_first_registered_candidate() {
    let names = |names: &[&str]| names.iter().map(|n| n.to_string()).collect::<Vec<_>>();
    let managers: Vec<ProfileAuthManager> = ["a", "b"]
        .iter()
        .map(|id| ProfileAuthManager {
            profile_id: id.to_string(),
            auth_manager: 1,
        })
        .collect();
    assert_eq!(warmup_target(&names(&["b", "a"]), &managers), Some(1));
    assert_eq!(warmup_target(&names(&["x"]), &managers), None);
    assert_eq!(warmup_target(&names(&[]), &managers), None);
    assert_eq!(next_pass_delay(true, true, 3_600), 300);
    assert_eq!(next_pass_delay(true, true, 60), 60);
    assert_eq!(next_pass_delay(true, false, 3_600), 3_600);
    assert_eq!(next_pass_delay(false, true, 3_600), 3_600);
}

#[test]
fn warmup_requests_look_like_real_ones() {
    let model = WarmupModel {
        slug: "m".to_string(),
        instructions: "You are Codex.".to_string(),
        tool_mode: Some(ToolMode::Direct),
    };
    let prompt = warmup_prompt(&model, false);
    assert!(!prompt.input.is_empty());
    assert!(!prompt.tools.is_empty());
    assert_eq!(
        prompt.base_instructions,
        BaseInstructions::Model {
            text: "You are Codex.".to_string(),
            model: "m".to_string()
        }
    );
    let blank = WarmupModel {
        instructions: " \n".to_string(),
        ..model
    };
    assert_eq!(warmup_base_instructions(&blank), BaseInstructions::Default);
    assert!(warmup_tool_specs(Some(ToolMode::CodeModeOnly), false)
        .iter()
        .any(|tool| matches!(tool, WarmupTool::CodeMode { code_mode_only: true })));
    let metadata = warmup_responses_metadata(
        "installation".to_string(),
        &"thread".to_string(),
        "turn".to_string(),
    );
    assert_eq!(metadata.installation_id, "installation");
    assert_eq!(metadata.thread_id, "thread");
}

fn account(id: &str, availability: AccountPoolAvailability) -> AccountPoolAccount {
    AccountPoolAccount {
        profile_id: id.to_string(),
        label: None,
        priority: 0,
        is_active: id == "a",
        availability,
        plan_type: None,
        email: None,
        rate_limits: AccountPoolRateLimits::default(),
        window_warmup: None,
    }
}

#[test]
fn refresh_takes_later_observations_and_changes_nothing_else() {
    let mut response = AccountPoolReadResponse {
        enabled: true,
        active_profile_id: Some("a".to_string()),
        active_generation: Some(2),
        accounts: vec![
            account("a", AccountPoolAvailability::Available),
            account("b", AccountPoolAvailability::Disabled),
            account("c", AccountPoolAvailability::Exhausted { resets_at: None }),
        ],
    };
    response.accounts[2].rate_limits.observed_at = Some(NOW + 5);
    let before = response.clone();
    let records = ["x", "c", "b", "a"].map(str::to_string).to_vec();
    let saved = ["a", "c"]
        .map(|id| ProfileLimits {
            profile_id: id.to_string(),
            rate_limits: limits(11.0),
        })
        .to_vec();
    let ids = begin_refresh(&mut response, Some(&records), Some(&saved));
    assert_eq!(ids, vec!["c", "a"]);
    assert_eq!(response.accounts[0].rate_limits.observed_at, Some(NOW));
    assert_eq!(response.accounts[1], before.accounts[1]);
    assert_eq!(response.accounts[2], before.accounts[2]);
    apply_observations(
        &mut response,
        &vec![ProfileLimits {
            profile_id: "c".to_string(),
            rate_limits: limits(12.0),
        }],
    );
    assert_eq!(
        response.accounts[2].rate_limits.primary.unwrap().used_percent,
        percent(12.0)
    );
    let mut expected = before.clone();
    for i in [0, 2] {
        expected.accounts[i].rate_limits = response.accounts[i].rate_limits;
    }
    assert_eq!(response, expected);

    let mut disabled = before.clone();
    disabled.enabled = false;
    assert!(begin_refresh(&mut disabled, Some(&records), Some(&saved)).is_empty());
    assert_eq!(disabled.accounts, before.accounts);
    let mut unread = before.clone();
    assert!(begin_refresh(&mut unread, None, Some(&saved)).is_empty());
    assert_eq!(unread, before);
}

fn task_state(enabled: bool) -> WarmupTaskState {
    WarmupTaskState {
        enabled,
        task_running: true,
        interval_seconds: 300,
        rotation_strategy: AccountPoolRotationStrategy::FillFirst,
        session_model: None,
    }
}

#[test]
fn account_pool_warmup_debug_lists_candidates_and_task() {
    let snapshots = vec![
        snapshot("selected-acct", true),
        snapshot("standby-acct", false),
    ];
    let response = account_pool_warmup_debug_response(
        &AccountPoolWarmupDebugParams { run_now: false },
        &task_state(true),
        &vec!["standby-acct".to_string()],
        &snapshots,
        &vec![None, Some("standby@example.com".to_string())],
        &vec![WarmupLogEntry {
            at: at(NOW),
            message: "task spawned".to_string(),
        }],
    );

    assert!(response.enabled);
    assert!(response.task_running);
    assert!(!response.pass_requested);
    assert_eq!(response.interval_seconds, 300);
    assert_eq!(response.settle_seconds, 30);
    assert_eq!(response.rotation_strategy, "fillFirst");
    assert_eq!(response.accounts.len(), 2);
    let standby = response
        .accounts
        .iter()
        .find(|account| account.profile_id == "standby-acct")
        .expect("standby");
    assert!(standby.is_candidate);
    assert!(!standby.is_active);
    assert_eq!(standby.email.as_deref(), Some("standby@example.com"));
    assert_eq!(standby.availability, "available");
    let current = response
        .accounts
        .iter()
        .find(|account| account.profile_id == "selected-acct")
        .expect("current");
    assert!(current.is_active);
    assert!(!current.is_candidate);
    assert!(
        response
            .events
            .iter()
            .any(|event| event.message == "task spawned" && event.at == NOW),
        "expected task spawned event, got {:?}",
        response.events
    );
}

#[test]
fn warmup_debug_requests_a_pass_only_where_turns_are_pooled() {
    let run_now = AccountPoolWarmupDebugParams { run_now: true };
    let snapshots = vec![snapshot("a", true)];
    let emails = vec![None];
    let on = account_pool_warmup_debug_response(
        &run_now,
        &task_state(true),
        &vec![],
        &snapshots,
        &emails,
        &vec![],
    );
    assert!(on.pass_requested);
    let off = account_pool_warmup_debug_response(
        &run_now,
        &task_state(false),
        &vec![],
        &snapshots,
        &emails,
        &vec![],
    );
    assert!(!off.pass_requested);
    assert!(off.accounts.is_empty());
}
