use account_pool::accounts::AccountAvailability;
use account_pool::accounts::AccountLease;
use account_pool::accounts::AccountPoolSnapshot;
use account_pool::accounts::AccountProfile;
use account_pool::accounts::AccountRateLimitWindow;
use account_pool::accounts::AccountRateLimits;
use account_pool::accounts::ProfileAuthManager;
use account_pool::accounts::RateLimitSnapshot;
use account_pool::accounts::RateLimitWindow;
use account_pool::compact_task::CompactEnd;
use account_pool::compact_task::CompactRoute;
use account_pool::compact_task::CompactTask;
use account_pool::compact_task::RemoteCompactionSupport;
use account_pool::config::AccountPoolConfigToml;
use account_pool::config::AccountPoolRotationStrategy;
use account_pool::execution_account_pool::ExecutionAccountPoolHandle;
use account_pool::execution_auth::finish_preemptive_rotation;
use account_pool::execution_auth::legacy_unattributed_profile_id;
use account_pool::execution_auth::observe_rate_limits;
use account_pool::execution_auth::pool_eligibility;
use account_pool::execution_auth::preemptive_rotation;
use account_pool::execution_auth::should_skip_startup_prewarm;
use account_pool::execution_auth::AccountPoolError;
use account_pool::execution_auth::AccountPoolView;
use account_pool::execution_auth::AuthMode;
use account_pool::execution_auth::ExecutionAuth;
use account_pool::execution_auth::ExecutionAuthBinding;
use account_pool::execution_auth::ExecutionAuthLease;
use account_pool::execution_auth::ExecutionAuthMode;
use account_pool::execution_auth::ExecutionAuthRegistry;
use account_pool::execution_auth::InstallAction;
use account_pool::execution_auth::InstallEffect;
use account_pool::execution_auth::InstallOutcome;
use account_pool::execution_auth::ModelProviderInfo;
use account_pool::execution_auth::PoolEligibility;
use account_pool::execution_auth::PoolMutation;
use account_pool::execution_model_client::ExecutionModelClient;
use account_pool::execution_model_client::ExecutionModelClientSession;
use account_pool::execution_model_client::NoSchedulableAccount;
use account_pool::execution_request_auth::ExecutionRequestAuth;
use account_pool::failover::quota_reset_or_reprobe;
use account_pool::failover::AccountAvailabilityMutation;
use account_pool::failover::CodexErrorDetails;
use account_pool::failover::CodexErrorInfo;
use account_pool::failover::FailoverCause;
use account_pool::failover::FailoverCoordinator;
use account_pool::failover::FailoverOutcome;
use account_pool::failover::FailoverStep;
use account_pool::failover_turn::account_switch_message;
use account_pool::failover_turn::earliest_exhausted_reset;
use account_pool::failover_turn::pool_exhausted_message;
use account_pool::failover_turn::pool_unavailable_error;
use account_pool::failover_turn::AccountSwitchContinuation;
use account_pool::percent::Percent;
use account_pool::portable_compaction::PortableCompactionPolicy;
use account_pool::quota_exhaustion::UsageLimitReachedError;
use account_pool::time::UtcTime;

const NOW: i64 = 1_800_000_000;

fn at(seconds: i64) -> UtcTime {
    UtcTime::from_timestamp(seconds).unwrap()
}

fn percent(value: f64) -> Percent {
    Percent::from_bits(value.to_bits())
}

fn lease(profile_id: &str, generation: u64) -> AccountLease {
    AccountLease {
        profile_id: profile_id.to_string(),
        generation,
        auth_manager: 40 + generation,
    }
}

fn bound(profile_id: &str, generation: u64) -> ExecutionAuthLease {
    ExecutionAuthLease::from_account_lease(lease(profile_id, generation))
}

const NO_LIMITS: AccountRateLimits = AccountRateLimits {
    primary: None,
    secondary: None,
    observed_at: None,
};

fn snapshot(id: &str, availability: AccountAvailability) -> AccountPoolSnapshot {
    AccountPoolSnapshot {
        profile: AccountProfile {
            id: id.to_string(),
            label: None,
            priority: 0,
        },
        availability,
        is_active: false,
        rate_limits: NO_LIMITS,
        window_warmup: None,
    }
}

fn view(
    snapshots: Vec<AccountPoolSnapshot>,
    lease: Result<AccountLease, AccountPoolError>,
) -> AccountPoolView {
    AccountPoolView {
        snapshots,
        auth_managers: vec![],
        lease,
    }
}

#[test]
fn only_managed_chatgpt_on_the_builtin_openai_provider_is_pool_eligible() {
    let openai = ModelProviderInfo {
        is_openai: true,
        requires_openai_auth: true,
        env_key: None,
        experimental_bearer_token: None,
        has_auth_command: false,
        has_aws_auth: false,
    };
    let ollama = ModelProviderInfo {
        is_openai: false,
        requires_openai_auth: false,
        ..openai.clone()
    };
    let bedrock = ModelProviderInfo {
        is_openai: false,
        requires_openai_auth: false,
        has_aws_auth: true,
        ..openai.clone()
    };
    let custom_bearer = ModelProviderInfo {
        is_openai: false,
        requires_openai_auth: false,
        experimental_bearer_token: Some("custom-token".into()),
        ..openai.clone()
    };

    let cases = [
        (
            "managed ChatGPT",
            "openai",
            &openai,
            Some(AuthMode::Chatgpt),
            false,
            PoolEligibility::Eligible,
        ),
        (
            "managed-only pool before profile resolution",
            "openai",
            &openai,
            None,
            false,
            PoolEligibility::Eligible,
        ),
        (
            "API key",
            "openai",
            &openai,
            Some(AuthMode::ApiKey),
            false,
            PoolEligibility::Ineligible,
        ),
        (
            "external ChatGPT tokens",
            "openai",
            &openai,
            Some(AuthMode::ChatgptAuthTokens),
            false,
            PoolEligibility::Ineligible,
        ),
        (
            "local provider",
            "ollama",
            &ollama,
            Some(AuthMode::Chatgpt),
            false,
            PoolEligibility::Ineligible,
        ),
        (
            "Bedrock",
            "amazon-bedrock",
            &bedrock,
            Some(AuthMode::BedrockApiKey),
            false,
            PoolEligibility::Ineligible,
        ),
        (
            "custom bearer",
            "custom",
            &custom_bearer,
            Some(AuthMode::Chatgpt),
            false,
            PoolEligibility::Ineligible,
        ),
        (
            "workload identity",
            "openai",
            &openai,
            Some(AuthMode::Chatgpt),
            true,
            PoolEligibility::Ineligible,
        ),
    ];

    for (name, provider_id, provider, auth_mode, workload_identity_selected, expected) in cases {
        assert_eq!(
            pool_eligibility(provider_id, provider, auth_mode, workload_identity_selected,),
            expected,
            "unexpected eligibility for {name}",
        );
    }

    for own_credentials in [
        ModelProviderInfo {
            env_key: Some("KEY".to_string()),
            ..openai.clone()
        },
        ModelProviderInfo {
            has_auth_command: true,
            ..openai.clone()
        },
    ] {
        assert_eq!(
            pool_eligibility("openai", &own_credentials, Some(AuthMode::Chatgpt), false),
            PoolEligibility::Ineligible
        );
    }
}

#[test]
fn non_openai_provider_ignores_configured_account_pool() {
    let execution_auth = ExecutionAuth::legacy(1);
    assert_eq!(
        execution_auth.install_action(PoolEligibility::Ineligible),
        InstallAction::UseStockLogin
    );
    assert!(!execution_auth.ensure_runtime_from_config(PoolEligibility::Ineligible));
    assert!(execution_auth.runtime.is_none());
}

#[test]
fn startup_prewarm_is_skipped_only_for_an_eligible_configured_pool() {
    assert!(!should_skip_startup_prewarm(PoolEligibility::Eligible, false));
    assert!(should_skip_startup_prewarm(PoolEligibility::Eligible, true));
    assert!(!should_skip_startup_prewarm(PoolEligibility::Ineligible, true));
}

#[test]
fn installed_pool_is_refreshed_and_reconfigured() {
    let mut auth = ExecutionAuth::legacy(1);
    let config = AccountPoolConfigToml::default();
    assert_eq!(
        auth.install_action(PoolEligibility::Eligible),
        InstallAction::TryInstall
    );
    assert_eq!(
        auth.install_runtime_from_config(&config, InstallOutcome::Failed("broken".to_string())),
        Err("broken".to_string())
    );
    assert!(auth.runtime.is_none());
    assert_eq!(
        auth.install_runtime_from_config(&config, InstallOutcome::NotConfigured),
        Ok(InstallEffect::Nothing)
    );
    assert!(!auth.ensure_runtime_from_config(PoolEligibility::Eligible));
    assert_eq!(
        auth.install_runtime_from_config(
            &config,
            InstallOutcome::Installed {
                auth_manager: 9,
                newly_installed: true
            }
        ),
        Ok(InstallEffect::SpawnPoolChangeBridge)
    );
    assert!(auth.ensure_runtime_from_config(PoolEligibility::Eligible));
    assert!(!auth.ensure_runtime_from_config(PoolEligibility::Ineligible));
    assert_eq!(auth.revision, 1);
    assert_eq!(auth.compatibility_auth_manager(), 9);
    assert_eq!(
        auth.install_action(PoolEligibility::Eligible),
        InstallAction::RefreshInstalledPool
    );
    let other = AccountPoolConfigToml {
        rotation_strategy: Some(AccountPoolRotationStrategy::EarliestReset),
        return_to_preferred: Some(false),
        ..AccountPoolConfigToml::default()
    };
    assert_eq!(
        auth.install_runtime_from_config(&other, InstallOutcome::Refreshed),
        Ok(InstallEffect::Nothing)
    );
    let runtime = auth.runtime.unwrap();
    assert_eq!(runtime.auth_manager, 9);
    assert_eq!(
        runtime.rotation_strategy,
        AccountPoolRotationStrategy::EarliestReset
    );
    assert!(!runtime.return_to_preferred);
}

#[test]
fn one_registry_entry_serves_a_host_login() {
    let mut registry = ExecutionAuthRegistry::new();
    let first = registry.shared(7);
    let second = registry.shared(8);
    assert_ne!(first, second);
    assert_eq!(registry.shared(7), first);
    assert_eq!(registry.entries.len(), 2);
}

#[test]
fn turns_are_pooled_only_where_a_pool_is_installed() {
    let mut auth = ExecutionAuth::legacy(1);
    assert!(!auth
        .mode_for_turn(PoolEligibility::Eligible, None)
        .is_pooled());
    auth.install_runtime_from_config(
        &AccountPoolConfigToml::default(),
        InstallOutcome::Installed {
            auth_manager: 9,
            newly_installed: true,
        },
    )
    .unwrap();
    let pool = || view(vec![], Ok(lease("a", 3)));
    assert_eq!(
        auth.mode_for_turn(PoolEligibility::Ineligible, Some(pool())),
        ExecutionAuthMode::Stock
    );
    let mode = auth.mode_for_turn(PoolEligibility::Eligible, Some(pool()));
    assert!(mode.is_pooled());
    assert!(!mode.multi_account_enabled());
    let two = view(
        vec![
            snapshot("a", AccountAvailability::Available),
            snapshot("b", AccountAvailability::Disabled),
        ],
        Ok(lease("a", 3)),
    );
    assert!(auth
        .mode_for_turn(PoolEligibility::Eligible, Some(two))
        .multi_account_enabled());
    let Ok(ExecutionAuthBinding::Pooled(captured)) = mode.capture_binding() else {
        panic!("an installed pool is captured");
    };
    assert_eq!(captured.profile_id().map(String::as_str), Some("a"));
    assert_eq!(captured.generation(), 3);
    let exhausted = auth.mode_for_turn(
        PoolEligibility::Eligible,
        Some(view(vec![], Err(AccountPoolError::NoEligibleAccount))),
    );
    assert_eq!(
        exhausted.capture_binding(),
        Err(AccountPoolError::NoEligibleAccount)
    );
}

#[test]
fn request_auth_retains_the_bound_manager() {
    let manager = 77;
    let binding =
        ExecutionRequestAuth::new(/*profile_id*/ None, /*generation*/ 7, manager);

    assert_eq!(binding.auth_manager(), manager);
}

#[test]
fn requests_keep_the_identity_of_their_lease() {
    let pooled = bound("a", 3).request_auth();
    assert_eq!(pooled.auth_manager(), 43);
    assert_eq!(pooled.identity().profile_id.as_deref(), Some("a"));
    assert_eq!(pooled.identity().generation, 3);
    assert_eq!(ExecutionAuthBinding::Stock.request_auth(), None);
    assert!(bound("a", 3).is_same_execution_identity(&bound("a", 3)));
    assert!(!bound("a", 3).is_same_execution_identity(&bound("a", 4)));
    assert!(!bound("a", 3).is_same_execution_identity(&bound("b", 3)));
}

#[test]
fn legacy_root_owns_unattributed_history() {
    let with_root = view(
        vec![
            snapshot("other", AccountAvailability::Available),
            snapshot("legacy-root", AccountAvailability::Disabled),
        ],
        Ok(lease("other", 1)),
    );
    assert_eq!(
        legacy_unattributed_profile_id(Some(&with_root)).as_deref(),
        Some("legacy-root")
    );
    assert_eq!(legacy_unattributed_profile_id(None), None);
}

#[test]
fn backend_reset_timestamp_wins_over_client_reprobe() {
    let reset = at(NOW + 2 * 3_600);
    assert_eq!(quota_reset_or_reprobe(Some(reset), at(NOW)), reset);
}

#[test]
fn past_reset_timestamp_is_clamped_to_a_minimum_cooldown() {
    let stale_reset = at(NOW - 3_600);
    let clamped = quota_reset_or_reprobe(Some(stale_reset), at(NOW));
    assert!(at(NOW).is_before(clamped));
    assert_eq!(clamped, at(NOW + 60));
}

#[test]
fn missing_reset_gets_finite_reprobe_deadline() {
    let before = at(NOW + 9 * 60);
    let reset = quota_reset_or_reprobe(None, at(NOW));
    let after = at(NOW + 11 * 60);
    assert!(before.is_before(reset));
    assert!(reset.is_before(after));
}

fn usage_limit(resets_at: Option<UtcTime>) -> CodexErrorDetails {
    CodexErrorDetails::UsageLimitReached(UsageLimitReachedError {
        plan_type: None,
        resets_at,
        rate_limits: None,
        promo_message: None,
        rate_limit_reached_type: None,
    })
}

#[test]
fn inference_errors_change_the_account_that_they_came_from() {
    let failed = bound("a", 3);
    assert_eq!(
        FailoverCoordinator::handle_inference_error(
            true,
            &failed,
            &usage_limit(Some(at(NOW + 900))),
            at(NOW)
        ),
        FailoverStep::Mutate {
            mutation: Some(PoolMutation::MarkExhausted {
                lease: lease("a", 3),
                resets_at: Some(at(NOW + 900)),
                rate_limits: None,
            }),
            cause: FailoverCause::UsageLimitReached,
        }
    );
    assert_eq!(
        FailoverCoordinator::handle_inference_error(
            true,
            &failed,
            &CodexErrorDetails::QuotaExceeded,
            at(NOW)
        ),
        FailoverStep::Mutate {
            mutation: Some(PoolMutation::MarkExhausted {
                lease: lease("a", 3),
                resets_at: Some(at(NOW + 600)),
                rate_limits: None,
            }),
            cause: FailoverCause::UsageLimitReached,
        }
    );
    assert_eq!(
        FailoverCoordinator::handle_inference_error(
            true,
            &failed,
            &CodexErrorDetails::RefreshTokenFailed("revoked".to_string()),
            at(NOW)
        ),
        FailoverStep::Mutate {
            mutation: Some(PoolMutation::MarkAuthenticationUnavailable {
                lease: lease("a", 3),
                message: "revoked".to_string(),
            }),
            cause: FailoverCause::AuthenticationUnavailable,
        }
    );
    assert_eq!(
        FailoverCoordinator::handle_inference_error(
            false,
            &failed,
            &CodexErrorDetails::QuotaExceeded,
            at(NOW)
        ),
        FailoverStep::Mutate {
            mutation: None,
            cause: FailoverCause::UsageLimitReached,
        }
    );
    for unrelated in [
        CodexErrorDetails::TurnAborted,
        CodexErrorDetails::Other("network".to_string()),
    ] {
        assert_eq!(
            FailoverCoordinator::handle_inference_error(true, &failed, &unrelated, at(NOW)),
            FailoverStep::NotApplicable
        );
    }
}

#[test]
fn answers_of_the_pool_become_outcomes() {
    let cause = FailoverCause::UsageLimitReached;
    let failed = bound("a", 3);
    assert_eq!(
        FailoverCoordinator::finish_mutation(
            &failed,
            AccountAvailabilityMutation::Rebound(lease("b", 4)),
            cause
        ),
        FailoverOutcome::Rebound {
            cause,
            from_profile: Some("a".to_string()),
            from_generation: 3,
            to_profile: Some("b".to_string()),
            to_generation: 4,
        }
    );
    assert_eq!(
        FailoverCoordinator::finish_mutation(
            &failed,
            AccountAvailabilityMutation::StaleIgnored {
                active: Some(lease("b", 4))
            },
            cause
        ),
        FailoverOutcome::ActiveUnchanged {
            cause,
            failed_profile: Some("a".to_string()),
            failed_generation: 3,
            active_profile: Some("b".to_string()),
            active_generation: 4,
        }
    );
    for exhausted in [
        AccountAvailabilityMutation::PoolExhausted,
        AccountAvailabilityMutation::InactiveProfileUpdated { active: None },
        AccountAvailabilityMutation::StaleIgnored { active: None },
    ] {
        assert_eq!(
            FailoverCoordinator::finish_mutation(&failed, exhausted, cause),
            FailoverOutcome::PoolExhausted { cause }
        );
    }
}

#[test]
fn pool_unavailable_maps_to_usage_limit_exceeded() {
    let err = pool_unavailable_error(None);
    assert!(matches!(err, CodexErrorDetails::UsageLimitReached(_)));
    assert_eq!(
        err.to_codex_protocol_error(),
        CodexErrorInfo::UsageLimitExceeded
    );
}

#[test]
fn exhausted_pools_name_their_earliest_reset() {
    let pool = view(
        vec![
            snapshot(
                "a",
                AccountAvailability::Exhausted {
                    resets_at: Some(at(1_900_000_300)),
                },
            ),
            snapshot("b", AccountAvailability::Exhausted { resets_at: None }),
            snapshot(
                "c",
                AccountAvailability::Exhausted {
                    resets_at: Some(at(1_900_000_000)),
                },
            ),
            snapshot("d", AccountAvailability::Disabled),
        ],
        Err(AccountPoolError::NoEligibleAccount),
    );
    assert_eq!(
        earliest_exhausted_reset(Some(&pool)),
        Some(at(1_900_000_000))
    );
    assert!(pool_exhausted_message(Some(&pool)).starts_with(
        "All configured Codex accounts have hit their usage limits. The earliest cooldown ends at 2030-03-17 17:46 UTC."
    ));
    assert_eq!(
        pool_exhausted_message(None),
        "All configured Codex accounts are currently unavailable. Run `codex account list` for details."
    );
}

#[test]
fn switches_of_accounts_are_explained() {
    assert_eq!(
        account_switch_message(
            Some(&bound("b", 4)),
            &bound("a", 3),
            AccountSwitchContinuation::Automatic
        )
        .unwrap(),
        "Codex account `a` became unavailable; switched to `b`. The turn continues automatically."
    );
    assert_eq!(
        account_switch_message(
            Some(&bound("b", 4)),
            &ExecutionAuthLease::legacy(1),
            AccountSwitchContinuation::ResendRequired
        )
        .unwrap(),
        "Codex account the previous account became unavailable; switched to `b`. Partial output could not be replayed safely; re-send your message to continue on the new account."
    );
    assert_eq!(
        account_switch_message(
            None,
            &bound("a", 3),
            AccountSwitchContinuation::Automatic
        ),
        None
    );
}

fn depleted_view(used_percent: f64, resets_at: Option<UtcTime>) -> AccountPoolView {
    let mut active = snapshot("a", AccountAvailability::Available);
    active.rate_limits = AccountRateLimits {
        primary: Some(AccountRateLimitWindow {
            used_percent: percent(used_percent),
            resets_at,
            window_minutes: Some(300),
        }),
        secondary: None,
        observed_at: Some(at(NOW - 60)),
    };
    view(vec![active], Ok(lease("a", 3)))
}

#[test]
fn depleted_accounts_are_rotated_away_from() {
    let threshold = percent(95.0);
    assert_eq!(
        preemptive_rotation(
            Some(&depleted_view(94.9, Some(at(NOW + 60)))),
            threshold,
            at(NOW)
        ),
        None
    );
    let rotation = preemptive_rotation(
        Some(&depleted_view(95.0, Some(at(NOW + 60)))),
        threshold,
        at(NOW),
    )
    .unwrap();
    assert_eq!(rotation.lease, lease("a", 3));
    assert_eq!(rotation.resets_at, at(NOW + 60));
    assert_eq!(
        preemptive_rotation(
            Some(&depleted_view(99.0, Some(at(NOW)))),
            threshold,
            at(NOW)
        ),
        None
    );
    let unknown = preemptive_rotation(Some(&depleted_view(99.0, None)), threshold, at(NOW)).unwrap();
    assert_eq!(unknown.resets_at, at(NOW + 600));
    assert_eq!(
        preemptive_rotation(
            Some(&depleted_view(99.0, None)),
            threshold,
            at(NOW + 1_800)
        ),
        None
    );
    assert_eq!(preemptive_rotation(None, threshold, at(NOW)), None);
    let switch = finish_preemptive_rotation(rotation, Some(lease("b", 4))).unwrap();
    assert_eq!(
        (switch.from_profile.as_str(), switch.to_profile.as_str()),
        ("a", "b")
    );
    assert_eq!(finish_preemptive_rotation(unknown, None), None);
}

#[test]
fn observed_limits_are_stored_for_the_lease_that_saw_them() {
    let reported = RateLimitSnapshot {
        limit_id: Some("codex".to_string()),
        limit_name: None,
        primary: Some(RateLimitWindow {
            used_percent: percent(12.0),
            window_minutes: Some(300),
            resets_at: Some(i64::MAX),
        }),
        secondary: None,
        plan_type: None,
        rate_limit_reached_type: None,
    };
    assert_eq!(
        observe_rate_limits(true, &bound("a", 3), &reported, at(NOW)),
        Some(PoolMutation::UpdateRateLimits {
            lease: lease("a", 3),
            rate_limits: AccountRateLimits {
                primary: Some(AccountRateLimitWindow {
                    used_percent: percent(12.0),
                    resets_at: None,
                    window_minutes: Some(300),
                }),
                secondary: None,
                observed_at: Some(at(NOW)),
            },
        })
    );
    assert_eq!(
        observe_rate_limits(true, &ExecutionAuthLease::legacy(1), &reported, at(NOW)),
        None
    );
}

#[test]
fn activation_reports_success_only_for_the_active_profile() {
    let mut auth = ExecutionAuth::legacy(1);
    auth.install_runtime_from_config(
        &AccountPoolConfigToml::default(),
        InstallOutcome::Installed {
            auth_manager: 9,
            newly_installed: true,
        },
    )
    .unwrap();
    let handle = ExecutionAccountPoolHandle::shared(&mut auth, Some(view(vec![], Ok(lease("a", 3)))));
    let identity = handle.activate(&"a".to_string(), Ok(lease("a", 3))).unwrap();
    assert_eq!(
        (identity.profile_id.as_str(), identity.generation),
        ("a", 3)
    );
    assert!(handle.activate(&"b".to_string(), Ok(lease("b", 2))).is_err());
    assert_eq!(
        handle.activate_fill_first(Err(AccountPoolError::NoEligibleAccount)),
        Err(AccountPoolError::NoEligibleAccount)
    );
    assert_eq!(
        handle
            .force_activate_automatic(Ok(lease("a", 2)))
            .unwrap()
            .generation,
        3
    );
    assert_eq!(
        handle.force_activate_automatic(Ok(lease("b", 4))),
        Err(AccountPoolError::NoEligibleAccount)
    );
    assert!(handle.ensure_from_config(PoolEligibility::Eligible));
    assert!(!handle.ensure_from_config(PoolEligibility::Ineligible));
    assert_eq!(handle.change_receiver(), handle.inner.revision);
    let mut handle = handle;
    assert!(!handle.window_warmup_task_running());
    handle.request_window_warmup_pass_now();
    assert_eq!(handle.pool, Some(view(vec![], Ok(lease("a", 3)))));
    assert!(auth.window_warmup_pass_requested);
    assert_eq!(ExecutionAccountPoolHandle::window_warmup_settle_seconds(), 30);
    let mut login = ExecutionAuth::legacy(1);
    let stock = ExecutionAccountPoolHandle::shared(&mut login, None);
    assert_eq!(
        stock.activate(&"a".to_string(), Ok(lease("a", 3))),
        Err(AccountPoolError::NoEligibleAccount)
    );
    assert_eq!(stock.active_identity(), None);
    assert!(stock.snapshots().is_empty());
    assert!(stock.auth_managers().is_empty());
    let mut pool = view(
        vec![snapshot("a", AccountAvailability::Available)],
        Ok(lease("a", 3)),
    );
    pool.auth_managers.push(ProfileAuthManager {
        profile_id: "a".to_string(),
        auth_manager: 43,
    });
    let handle = ExecutionAccountPoolHandle::shared(&mut auth, Some(pool));
    assert_eq!(
        handle.snapshots(),
        vec![snapshot("a", AccountAvailability::Available)]
    );
    assert_eq!(
        handle.auth_managers(),
        vec![ProfileAuthManager {
            profile_id: "a".to_string(),
            auth_manager: 43
        }]
    );
}

#[test]
fn clients_stay_with_their_identity() {
    let mut owner = ExecutionModelClient::new();
    assert_eq!(owner.client_for_lease(&bound("a", 3)), None);
    owner.store_client(&bound("a", 3), 100);
    assert_eq!(owner.client_for_lease(&bound("a", 3)), Some(100));
    assert_eq!(owner.client_for_lease(&bound("a", 4)), None);
    assert_eq!(
        owner.bind_active_client(Some(bound("a", 3))),
        Ok((bound("a", 3), Some(100)))
    );
    assert_eq!(
        owner.bind_active_client(Some(bound("b", 1))),
        Ok((bound("b", 1), None))
    );
    assert_eq!(owner.bind_active_client(None), Err(NoSchedulableAccount));
    assert_eq!(ExecutionModelClient::auth_manager(Some(&bound("a", 3))), Some(43));
    assert_eq!(ExecutionModelClient::auth_manager(None), None);
    let mut session = ExecutionModelClientSession::new(bound("a", 3), 1);
    assert!(!session.needs_rebind(&bound("a", 3)));
    assert_eq!(session.rebind_session_to_active(Some(bound("a", 3))), Ok(None));
    assert_eq!(
        session.rebind_session_to_active(Some(bound("b", 1))),
        Ok(Some(bound("b", 1)))
    );
    assert_eq!(
        session.rebind_session_to_active(None),
        Err(NoSchedulableAccount)
    );
    assert_eq!(
        NoSchedulableAccount.message(),
        "no schedulable Codex execution account is available"
    );
    session.rebind_session(bound("b", 1), 2);
    assert_eq!(session.execution_lease(), &bound("b", 1));
    assert_eq!(session.inner, 2);
}

#[test]
fn portable_history_is_compacted_locally() {
    let v2 = RemoteCompactionSupport::V2;
    assert_eq!(
        CompactTask::route(false, PortableCompactionPolicy::Portable, v2, true),
        CompactRoute::LocalMultiAccount
    );
    assert_eq!(
        CompactTask::route(true, PortableCompactionPolicy::Portable, v2, true),
        CompactRoute::TokenBudget
    );
    assert_eq!(
        CompactTask::route(false, PortableCompactionPolicy::Stock, v2, true),
        CompactRoute::RemoteV2
    );
    assert_eq!(
        CompactTask::route(false, PortableCompactionPolicy::Stock, v2, false),
        CompactRoute::Remote
    );
    assert_eq!(
        CompactTask::route(
            false,
            PortableCompactionPolicy::Stock,
            RemoteCompactionSupport::Unsupported,
            true
        ),
        CompactRoute::Local
    );
    assert_eq!(
        CompactTask::metric(CompactRoute::LocalMultiAccount),
        Some("local_multi_account")
    );
    assert_eq!(CompactTask::metric(CompactRoute::TokenBudget), None);
    assert_eq!(CompactTask.span_name(), "session_task.compact");
    assert_eq!(
        CompactTask::pool_initialization_error(&"no manifest".to_string()),
        CodexErrorDetails::UnsupportedOperation(
            "failed to initialize native multi-account execution for compaction: no manifest"
                .to_string()
        )
    );
}

#[test]
fn compactions_end_as_their_error_says() {
    let portable = PortableCompactionPolicy::Portable;
    let wrong_owner = CodexErrorDetails::UnsupportedOperation("wrong owner".to_string());
    assert_eq!(CompactTask::end(portable, Ok(())), CompactEnd::Done);
    assert_eq!(
        CompactTask::end(portable, Err(CodexErrorDetails::TurnAborted)),
        CompactEnd::Fail(CodexErrorDetails::TurnAborted)
    );
    assert_eq!(
        CompactTask::end(portable, Err(wrong_owner.clone())),
        CompactEnd::Report(wrong_owner.clone())
    );
    assert_eq!(
        CompactTask::end(PortableCompactionPolicy::Stock, Err(wrong_owner)),
        CompactEnd::Done
    );
    assert_eq!(
        CompactTask::local_prompt(&None, "summarize"),
        "summarize"
    );
    assert_eq!(
        CompactTask::local_prompt(&Some("own".to_string()), "summarize"),
        "own"
    );
}
