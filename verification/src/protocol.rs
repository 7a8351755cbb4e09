//! The account pool as clients see it.
use vstd::prelude::*;

use crate::accounts::AccountRateLimitWindow;
use crate::accounts::AccountRateLimits;
use crate::accounts::PlanType;
use crate::percent::Percent;

verus! {

#[derive(Clone, Debug, PartialEq, Eq)]
pub struct AccountPoolReadResponse {
    pub enabled: bool,
    pub active_profile_id: Option<String>,
    pub active_generation: Option<u64>,
    pub accounts: Vec<AccountPoolAccount>,
}

#[derive(Clone, Debug, PartialEq, Eq)]
pub struct AccountPoolUseParams {
    pub profile_id: Option<String>,
    pub force: bool,
}

#[derive(Clone, Debug, PartialEq, Eq)]
pub struct AccountPoolUseResponse {
    pub active_profile_id: String,
    pub generation: u64,
}

/// Pushed whenever the scheduling state of the pool changes. The plan and email of an account are
/// left out; clients fetch them on demand.
#[derive(Clone, Debug, PartialEq, Eq)]
pub struct AccountPoolUpdatedNotification {
    pub active_profile_id: Option<String>,
    pub active_generation: Option<u64>,
    pub accounts: Vec<AccountPoolAccount>,
}

#[derive(Clone, Debug, PartialEq, Eq)]
pub struct AccountPoolAccount {
    pub profile_id: String,
    pub label: Option<String>,
    pub priority: u32,
    pub is_active: bool,
    pub availability: AccountPoolAvailability,
    pub plan_type: Option<PlanType>,
    pub email: Option<String>,
    pub rate_limits: AccountPoolRateLimits,
    /// Latest warmup observation of a standby account.
    pub window_warmup: Option<AccountPoolWindowWarmup>,
}

#[derive(Clone, Copy, Debug, PartialEq, Eq, Structural)]
pub struct AccountPoolWindowWarmup {
    pub outcome: AccountPoolWindowWarmupOutcome,
    pub attempted_at: i64,
    pub retry_after: Option<i64>,
}

#[derive(Clone, Copy, Debug, PartialEq, Eq, Structural)]
pub enum AccountPoolWindowWarmupOutcome {
    Succeeded,
    Failed,
    SkippedNoAuth,
}

#[derive(Clone, Debug, PartialEq, Eq)]
pub enum AccountPoolAvailability {
    Available,
    Exhausted { resets_at: Option<i64> },
    AuthenticationUnavailable { reason: String },
    Disabled,
}

#[derive(Clone, Copy, Debug, PartialEq, Eq, Structural)]
pub struct AccountPoolRateLimits {
    pub primary: Option<AccountPoolRateLimitWindow>,
    pub secondary: Option<AccountPoolRateLimitWindow>,
    pub observed_at: Option<i64>,
}

impl Default for AccountPoolRateLimits {
    fn default() -> (limits: Self)
        ensures
            limits == (AccountPoolRateLimits { primary: None, secondary: None, observed_at: None }),
    {
        AccountPoolRateLimits { primary: None, secondary: None, observed_at: None }
    }
}

#[derive(Clone, Copy, Debug, PartialEq, Eq, Structural)]
pub struct AccountPoolRateLimitWindow {
    pub used_percent: Percent,
    pub resets_at: Option<i64>,
}

/// Request for the transcript of the warmup task.
#[derive(Clone, Copy, Debug, PartialEq, Eq, Structural)]
pub struct AccountPoolWarmupDebugParams {
    /// Request one warmup pass immediately.
    pub run_now: bool,
}

impl Default for AccountPoolWarmupDebugParams {
    fn default() -> (params: Self)
        ensures
            params == (AccountPoolWarmupDebugParams { run_now: false }),
    {
        AccountPoolWarmupDebugParams { run_now: false }
    }
}

#[derive(Clone, Debug, PartialEq, Eq)]
pub struct AccountPoolWarmupDebugResponse {
    pub enabled: bool,
    pub task_running: bool,
    pub pass_requested: bool,
    pub interval_seconds: u64,
    pub settle_seconds: u64,
    pub rotation_strategy: String,
    pub session_model: Option<String>,
    pub accounts: Vec<AccountPoolWarmupDebugAccount>,
    pub events: Vec<AccountPoolWarmupDebugEvent>,
}

#[derive(Clone, Debug, PartialEq, Eq)]
pub struct AccountPoolWarmupDebugAccount {
    pub profile_id: String,
    pub email: Option<String>,
    pub label: Option<String>,
    pub priority: u32,
    pub is_active: bool,
    pub is_candidate: bool,
    pub availability: String,
    pub primary_used_percent: Option<Percent>,
    pub persisted_warmup_outcome: Option<String>,
}

#[derive(Clone, Debug, PartialEq, Eq)]
pub struct AccountPoolWarmupDebugEvent {
    pub at: i64,
    pub message: String,
}

/// One rate-limit window of a status panel.
#[derive(Clone, Copy, Debug, PartialEq, Eq, Structural)]
pub struct RateLimitWindow {
    pub used_percent: i32,
    pub window_duration_mins: Option<i64>,
    pub resets_at: Option<i64>,
}

/// The limits of a status panel.
#[derive(Clone, Debug, PartialEq, Eq)]
pub struct RateLimitSnapshot {
    pub limit_id: Option<String>,
    pub limit_name: Option<String>,
    pub primary: Option<RateLimitWindow>,
    pub secondary: Option<RateLimitWindow>,
}

/// A window as clients see it: times as whole seconds.
pub open spec fn client_window(window: AccountRateLimitWindow) -> AccountPoolRateLimitWindow {
    AccountPoolRateLimitWindow {
        used_percent: window.used_percent,
        resets_at: match window.resets_at {
            Some(time) => Some(time.spec_seconds()),
            None => None,
        },
    }
}

/// Limits as clients see them.
pub open spec fn client_limits(limits: AccountRateLimits) -> AccountPoolRateLimits {
    AccountPoolRateLimits {
        primary: match limits.primary {
            Some(window) => Some(client_window(window)),
            None => None,
        },
        secondary: match limits.secondary {
            Some(window) => Some(client_window(window)),
            None => None,
        },
        observed_at: match limits.observed_at {
            Some(time) => Some(time.spec_seconds()),
            None => None,
        },
    }
}

fn to_client_window(window: &AccountRateLimitWindow) -> (converted: AccountPoolRateLimitWindow)
    ensures
        converted == client_window(*window),
{
    AccountPoolRateLimitWindow {
        used_percent: window.used_percent,
        resets_at: match window.resets_at {
            Some(time) => Some(time.timestamp()),
            None => None,
        },
    }
}

/// Limits as clients see them.
pub fn account_pool_rate_limits(limits: &AccountRateLimits) -> (converted: AccountPoolRateLimits)
    ensures
        converted == client_limits(*limits),
{
    AccountPoolRateLimits {
        primary: match &limits.primary {
            Some(window) => Some(to_client_window(window)),
            None => None,
        },
        secondary: match &limits.secondary {
            Some(window) => Some(to_client_window(window)),
            None => None,
        },
        observed_at: match limits.observed_at {
            Some(time) => Some(time.timestamp()),
            None => None,
        },
    }
}

} // verus!
