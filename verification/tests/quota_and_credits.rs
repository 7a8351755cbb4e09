use account_pool::accounts::AccountAvailability;
use account_pool::accounts::AccountLease;
use account_pool::accounts::AccountPoolSnapshot;
use account_pool::accounts::AccountProfile;
use account_pool::accounts::AccountRateLimits;
use account_pool::accounts::PlanType;
use account_pool::accounts::ProfileAuthManager;
use account_pool::accounts::RateLimitReachedType;
use account_pool::accounts::RateLimitSnapshot;
use account_pool::config::AccountPoolConfigToml;
use account_pool::config::AutoResetCredits;
use account_pool::execution_auth::AccountPoolError;
use account_pool::execution_auth::AccountPoolView;
use account_pool::execution_auth::ExecutionAuthLease;
use account_pool::quota_exhaustion::is_workspace_rate_limit;
use account_pool::quota_exhaustion::plans_share_quota_bucket;
use account_pool::quota_exhaustion::quota_bucket;
use account_pool::quota_exhaustion::usage_limit_matches_profile;
use account_pool::quota_exhaustion::UsageLimitReachedError;
use account_pool::reset_credit_rescue::consume_reset_credit_for_profile;
use account_pool::reset_credit_rescue::reactivate_redeemed_profile;
use account_pool::reset_credit_rescue::should_redeem;
use account_pool::reset_credit_rescue::try_reset_credit_rescue;
use account_pool::reset_credit_rescue::RedeemReply;
use account_pool::reset_credit_rescue::ResetCreditRedemption;
use account_pool::reset_credit_singleflight::ResetCreditRescueAttempt;
use account_pool::reset_credit_singleflight::ResetCreditRescueAttemptKey;
use account_pool::reset_credit_singleflight::ResetCreditRescueSingleflight;
use account_pool::time::UtcTime;

fn at(seconds: i64) -> UtcTime {
    UtcTime::from_timestamp(seconds).unwrap()
}

const NOW: i64 = 1_800_000_000;

#[test]
fn workspace_and_consumer_plans_do_not_share_quota_bucket() {
    assert!(!plans_share_quota_bucket(&PlanType::Team, &PlanType::Plus));
    assert!(!plans_share_quota_bucket(&PlanType::Business, &PlanType::Pro));
}

#[test]
fn workspace_plans_share_quota_bucket() {
    assert!(plans_share_quota_bucket(&PlanType::Team, &PlanType::Business));
}

#[test]
fn consumer_plans_share_quota_bucket() {
    assert!(plans_share_quota_bucket(&PlanType::Plus, &PlanType::Pro));
}

#[test]
fn plans_with_one_bucket_share_it() {
    let school = PlanType::Other {
        name: "edu".to_string(),
        workspace_account: true,
    };
    assert!(plans_share_quota_bucket(&school, &PlanType::Team));
    assert_eq!(quota_bucket(&school), quota_bucket(&PlanType::Business));
    assert_eq!(quota_bucket(&PlanType::Plus), quota_bucket(&PlanType::Pro));
    assert_ne!(quota_bucket(&PlanType::Plus), quota_bucket(&school));
}

fn limit(
    plan_type: Option<PlanType>,
    snapshot_plan: Option<PlanType>,
    rate_limit_reached_type: Option<RateLimitReachedType>,
) -> UsageLimitReachedError {
    UsageLimitReachedError {
        plan_type,
        resets_at: None,
        rate_limits: snapshot_plan.map(|plan| RateLimitSnapshot {
            limit_id: None,
            limit_name: None,
            primary: None,
            secondary: None,
            plan_type: Some(plan),
            rate_limit_reached_type: None,
        }),
        promo_message: None,
        rate_limit_reached_type,
    }
}

#[test]
fn workspace_member_limit_does_not_match_plus_profile() {
    let limit = limit(
        Some(PlanType::Team),
        None,
        Some(RateLimitReachedType::WorkspaceMemberUsageLimitReached),
    );
    assert!(!usage_limit_matches_profile(
        true,
        Some(&PlanType::Plus),
        &limit
    ));
}

#[test]
fn matching_team_limit_matches_team_profile() {
    let limit = limit(
        Some(PlanType::Team),
        None,
        Some(RateLimitReachedType::WorkspaceMemberUsageLimitReached),
    );
    assert!(usage_limit_matches_profile(
        true,
        Some(&PlanType::Team),
        &limit
    ));
}

#[test]
fn mismatched_plan_type_in_rate_limits_snapshot_is_rejected() {
    let limit = limit(None, Some(PlanType::Business), None);
    assert!(!usage_limit_matches_profile(
        true,
        Some(&PlanType::Plus),
        &limit
    ));
}

#[test]
fn limit_of_the_own_plan_always_fits() {
    assert!(usage_limit_matches_profile(
        true,
        Some(&PlanType::Plus),
        &limit(Some(PlanType::Plus), Some(PlanType::Plus), None)
    ));
}

#[test]
fn workspace_limits_are_told_apart() {
    assert!(!is_workspace_rate_limit(RateLimitReachedType::RateLimitReached));
    assert!(is_workspace_rate_limit(
        RateLimitReachedType::WorkspaceOwnerCreditsDepleted
    ));
    assert!(is_workspace_rate_limit(
        RateLimitReachedType::WorkspaceMemberCreditsDepleted
    ));
    assert!(is_workspace_rate_limit(
        RateLimitReachedType::WorkspaceOwnerUsageLimitReached
    ));
    assert!(is_workspace_rate_limit(
        RateLimitReachedType::WorkspaceMemberUsageLimitReached
    ));
}

#[test]
fn never_mode_never_redeems() {
    assert_eq!(
        should_redeem(AutoResetCredits::Never, 60, /*earliest_reset*/ None, at(NOW)),
        false
    );
}

#[test]
fn nearby_natural_reset_wins_over_a_credit() {
    assert_eq!(
        should_redeem(
            AutoResetCredits::WhenPoolExhausted,
            60,
            Some(at(NOW + 30 * 60)),
            at(NOW)
        ),
        false
    );
}

#[test]
fn distant_reset_justifies_redeeming() {
    assert_eq!(
        should_redeem(
            AutoResetCredits::WhenPoolExhausted,
            60,
            Some(at(NOW + 4 * 60 * 60)),
            at(NOW)
        ),
        true
    );
}

#[test]
fn unknown_reset_justifies_redeeming() {
    assert_eq!(
        should_redeem(
            AutoResetCredits::WhenPoolExhausted,
            60,
            /*earliest_reset*/ None,
            at(NOW)
        ),
        true
    );
}

#[test]
fn reset_at_the_minimum_wait_is_waited_for() {
    let mode = AutoResetCredits::WhenPoolExhausted;
    let reset = at(NOW + 60 * 60);
    assert!(!should_redeem(mode, 60, Some(reset), at(NOW)));
    assert!(should_redeem(
        mode,
        60,
        UtcTime::new(reset.timestamp(), 1),
        at(NOW)
    ));
    assert!(should_redeem(mode, 59, Some(reset), at(NOW)));
    assert!(!should_redeem(mode, 61, Some(reset), at(NOW)));
}

#[test]
fn redeemed_credit_does_not_report_success_when_profile_cannot_reactivate() {
    let profile_id = "disabled-after-consume".to_string();
    assert!(reactivate_redeemed_profile(
        profile_id.clone(),
        &Err(AccountPoolError::ProfileUnavailable(profile_id))
    )
    .is_none());
}

#[test]
fn redeemed_credit_reports_the_profile_that_reactivated() {
    let activated = Ok(AccountLease {
        profile_id: "restored".to_string(),
        generation: 4,
        auth_manager: 1,
    });
    let rescue = reactivate_redeemed_profile("restored".to_string(), &activated).unwrap();
    assert_eq!(rescue.profile_id, "restored");
}

#[test]
fn only_a_reset_counts_as_a_consumed_credit() {
    assert!(consume_reset_credit_for_profile(&RedeemReply::Code(
        "reset".to_string()
    )));
    for reply in [
        RedeemReply::Code("already_redeemed".to_string()),
        RedeemReply::Code(String::new()),
        RedeemReply::NotLoggedIn,
        RedeemReply::OtherBackend,
        RedeemReply::Failed,
        RedeemReply::TimedOut,
    ] {
        assert!(!consume_reset_credit_for_profile(&reply));
    }
}

fn attempt_key(generation: u64) -> ResetCreditRescueAttemptKey {
    ResetCreditRescueAttemptKey {
        profile_id: "failed-profile".to_string(),
        generation,
    }
}

#[test]
fn dropping_leader_wakes_followers_and_closes_the_generation() {
    let mut singleflight = ResetCreditRescueSingleflight::default();
    let key = attempt_key(/*generation*/ 7);
    let ResetCreditRescueAttempt::Leader(leader) =
        singleflight.begin(key.clone(), "request-1".to_string())
    else {
        panic!("first attempt must lead");
    };
    assert_eq!(leader.redeem_request_id(), "request-1");
    let ResetCreditRescueAttempt::Follower(follower) =
        singleflight.begin(key.clone(), "request-2".to_string())
    else {
        panic!("concurrent attempt must follow");
    };
    assert!(!follower.is_finished(&singleflight));

    singleflight.finish(leader);
    assert!(follower.is_finished(&singleflight));

    assert!(matches!(
        singleflight.begin(key, "request-3".to_string()),
        ResetCreditRescueAttempt::AlreadyFinished
    ));
    assert!(matches!(
        singleflight.begin(attempt_key(/*generation*/ 8), "request-4".to_string()),
        ResetCreditRescueAttempt::Leader(_)
    ));
}

#[test]
fn followers_wait_for_their_own_attempt_only() {
    let mut singleflight = ResetCreditRescueSingleflight::default();
    let mut other = ResetCreditRescueSingleflight::default();
    let ResetCreditRescueAttempt::Leader(leader) =
        singleflight.begin(attempt_key(7), "request-1".to_string())
    else {
        panic!("first attempt must lead");
    };
    let ResetCreditRescueAttempt::Follower(follower) =
        singleflight.begin(attempt_key(8), "request-2".to_string())
    else {
        panic!("concurrent attempt must follow");
    };
    singleflight.finish(leader);
    let ResetCreditRescueAttempt::Leader(_later) =
        singleflight.begin(attempt_key(8), "request-3".to_string())
    else {
        panic!("later attempt must lead");
    };
    assert!(follower.is_finished(&singleflight));
    let ResetCreditRescueAttempt::Follower(waiting) =
        singleflight.begin(attempt_key(8), "request-4".to_string())
    else {
        panic!("concurrent attempt must follow");
    };
    let ResetCreditRescueAttempt::Leader(stranger) =
        other.begin(attempt_key(7), "request-5".to_string())
    else {
        panic!("first attempt must lead");
    };
    singleflight.finish(stranger);
    assert!(!waiting.is_finished(&singleflight));
}

fn exhausted(id: &str, resets_at: Option<UtcTime>) -> AccountPoolSnapshot {
    AccountPoolSnapshot {
        profile: AccountProfile {
            id: id.to_string(),
            label: None,
            priority: 0,
        },
        availability: AccountAvailability::Exhausted { resets_at },
        is_active: false,
        rate_limits: AccountRateLimits {
            primary: None,
            secondary: None,
            observed_at: None,
        },
        window_warmup: None,
    }
}

#[test]
fn credits_are_redeemed_only_where_that_is_opted_into() {
    let lease = ExecutionAuthLease::from_account_lease(AccountLease {
        profile_id: "failed-profile".to_string(),
        generation: 7,
        auth_manager: 1,
    });
    let view = AccountPoolView {
        snapshots: vec![exhausted("failed-profile", Some(at(NOW + 86_400)))],
        auth_managers: vec![
            ProfileAuthManager {
                profile_id: "primary-profile".to_string(),
                auth_manager: 5,
            },
            ProfileAuthManager {
                profile_id: "failed-profile".to_string(),
                auth_manager: 6,
            },
        ],
        lease: Err(AccountPoolError::NoEligibleAccount),
    };
    let opted_in = AccountPoolConfigToml {
        auto_reset_credits: Some(AutoResetCredits::WhenPoolExhausted),
        ..AccountPoolConfigToml::default()
    };
    assert_eq!(
        try_reset_credit_rescue(
            &AccountPoolConfigToml::default(),
            Some(&view),
            &lease,
            at(NOW)
        ),
        None
    );
    assert_eq!(
        try_reset_credit_rescue(&opted_in, Some(&view), &lease, at(NOW)),
        Some(ResetCreditRedemption {
            key: attempt_key(7),
            auth_manager: 6
        })
    );
    assert_eq!(
        try_reset_credit_rescue(&opted_in, None, &lease, at(NOW)),
        None
    );
    assert_eq!(
        try_reset_credit_rescue(&opted_in, Some(&view), &lease, at(NOW + 86_400 - 60)),
        None
    );
    assert_eq!(
        try_reset_credit_rescue(
            &opted_in,
            Some(&view),
            &ExecutionAuthLease::legacy(1),
            at(NOW)
        ),
        None
    );
}
