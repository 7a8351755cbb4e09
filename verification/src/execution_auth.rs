//! Which credentials a turn runs on: the stock login or a lease of the account pool.
//!
//! A pool is presented by [`AccountPoolView`], what it shows at one moment. Every model request
//! captures an immutable lease, so that a later switch of accounts cannot mix credentials within a
//! request.
use vstd::prelude::*;

use crate::accounts;
use crate::accounts::AccountLease;
use crate::accounts::AccountPoolSnapshot;
use crate::accounts::ProfileAuthManager;
use crate::accounts::AccountRateLimitWindow;
use crate::accounts::AccountRateLimits;
use crate::accounts::RateLimitSnapshot;
use crate::accounts::RateLimitWindow;
use crate::accounts::LEGACY_ROOT_PROFILE_ID;
use crate::config::AccountPoolConfigToml;
use crate::config::AccountPoolRotationStrategy;
use crate::execution_request_auth::ExecutionRequestAuth;
use crate::execution_request_auth::ExecutionRequestIdentity;
use crate::percent::Percent;
use crate::seqs;
use crate::text::same_text;
use crate::time::UtcTime;

verus! {

/// A preemptive rotation without an authoritative reset timestamp probes the parked account again
/// after this many seconds.
pub const PREEMPTIVE_UNKNOWN_RESET_REPROBE_SECONDS: u64 = 600;

/// An observation without a reset timestamp counts for this many seconds.
pub const STALE_OBSERVATION_SECONDS: u64 = 1800;

/// Provider id of the built-in OpenAI provider.
pub const OPENAI_PROVIDER_ID: &'static str = "openai";

/// Why the pool could not do what was asked of it.
#[derive(Clone, Debug, PartialEq, Eq)]
pub enum AccountPoolError {
    NoEligibleAccount,
    ProfileUnavailable(String),
    UnknownProfile(String),
    Other(String),
}

/// What the pool shows at one moment: its accounts, the managers of their credentials, and the lease
/// that it would give out.
#[derive(Debug, PartialEq, Eq)]
pub struct AccountPoolView {
    pub snapshots: Vec<AccountPoolSnapshot>,
    pub auth_managers: Vec<ProfileAuthManager>,
    pub lease: Result<AccountLease, AccountPoolError>,
}

/// Immutable execution identity captured by one account-bound request path.
#[derive(Clone, Debug, PartialEq, Eq)]
pub struct ExecutionAuthLease {
    account: Option<AccountLease>,
    auth_manager: u64,
}

impl ExecutionAuthLease {
    /// The account lease, where the request runs on a pool account.
    pub closed spec fn account(self) -> Option<AccountLease> {
        self.account
    }

    pub closed spec fn manager(self) -> u64 {
        self.auth_manager
    }

    /// Id of the leased profile.
    pub open spec fn spec_profile_id(self) -> Option<String> {
        match self.account() {
            Some(lease) => Some(lease.profile_id),
            None => None,
        }
    }

    /// Generation of the lease; 0 for the stock login.
    pub open spec fn spec_generation(self) -> u64 {
        match self.account() {
            Some(lease) => lease.generation,
            None => 0,
        }
    }

    /// A lease of the stock login.
    pub fn legacy(auth_manager: u64) -> (lease: Self)
        ensures
            lease.account() is None,
            lease.manager() == auth_manager,
    {
        ExecutionAuthLease { account: None, auth_manager }
    }

    /// A lease of a pool account, bound to that account's own authentication manager.
    pub fn from_account_lease(account: AccountLease) -> (lease: Self)
        ensures
            lease.account() == Some(account),
            lease.manager() == account.auth_manager,
    {
        let auth_manager: u64 = account.auth_manager;
        ExecutionAuthLease { account: Some(account), auth_manager }
    }

    pub fn profile_id(&self) -> (id: Option<&String>)
        ensures
            match id {
                Some(id) => self.spec_profile_id() == Some(*id),
                None => self.spec_profile_id() is None,
            },
    {
        match &self.account {
            Some(lease) => Some(&lease.profile_id),
            None => None,
        }
    }

    /// The id of the leased profile as an owned value.
    pub fn profile_id_owned(&self) -> (id: Option<String>)
        ensures
            id == self.spec_profile_id(),
    {
        match &self.account {
            Some(lease) => Some(lease.profile_id.clone()),
            None => None,
        }
    }

    pub fn generation(&self) -> (generation: u64)
        ensures
            generation == self.spec_generation(),
    {
        match &self.account {
            Some(lease) => lease.generation,
            None => 0,
        }
    }

    pub fn account_lease(&self) -> (lease: Option<&AccountLease>)
        ensures
            match lease {
                Some(lease) => self.account() == Some(*lease),
                None => self.account() is None,
            },
    {
        match &self.account {
            Some(lease) => Some(lease),
            None => None,
        }
    }

    /// The manager that requests on this lease authenticate through.
    pub fn auth_manager(&self) -> (manager: u64)
        ensures
            manager == self.manager(),
    {
        self.auth_manager
    }

    /// The authentication of a request that runs on this lease.
    pub fn request_auth(&self) -> (auth: ExecutionRequestAuth)
        ensures
            auth.spec_identity() == (ExecutionRequestIdentity {
                profile_id: self.spec_profile_id(),
                generation: self.spec_generation(),
            }),
            auth.spec_auth_manager() == self.manager(),
    {
        ExecutionRequestAuth::new(self.profile_id_owned(), self.generation(), self.auth_manager)
    }

    /// Whether two leases run on the same account in the same generation through the same
    /// authentication manager.
    pub open spec fn same_identity(self, other: ExecutionAuthLease) -> bool {
        &&& crate::text::opt_text(self.spec_profile_id()) == crate::text::opt_text(
            other.spec_profile_id(),
        )
        &&& self.spec_generation() == other.spec_generation()
        &&& self.manager() == other.manager()
    }

    pub fn is_same_execution_identity(&self, other: &ExecutionAuthLease) -> (same: bool)
        ensures
            same == self.same_identity(*other),
    {
        let same_profile = match (self.profile_id(), other.profile_id()) {
            (Some(own), Some(others)) => *own == *others,
            (None, None) => true,
            _ => false,
        };
        same_profile && self.generation() == other.generation() && self.auth_manager
            == other.auth_manager
    }

    /// The same lease.
    pub fn copy(&self) -> (lease: ExecutionAuthLease)
        ensures
            lease == *self,
    {
        let account = match &self.account {
            Some(lease) => Some(lease.copy()),
            None => None,
        };
        ExecutionAuthLease { account, auth_manager: self.auth_manager }
    }
}

/// Authentication mode selected for one turn.
#[derive(Debug, PartialEq, Eq)]
pub enum ExecutionAuthMode {
    Stock,
    Pooled(AccountPoolView),
}

/// Authentication binding captured at one inference request boundary.
#[derive(Clone, Debug, PartialEq, Eq)]
pub enum ExecutionAuthBinding {
    Stock,
    Pooled(ExecutionAuthLease),
}

impl ExecutionAuthMode {
    /// Whether a turn has more than one account to choose from.
    pub open spec fn has_several_accounts(self) -> bool {
        self matches ExecutionAuthMode::Pooled(view) && view.snapshots@.len() > 1
    }

    pub fn multi_account_enabled(&self) -> (enabled: bool)
        ensures
            enabled == self.has_several_accounts(),
    {
        match self {
            ExecutionAuthMode::Stock => false,
            ExecutionAuthMode::Pooled(view) => view.snapshots.len() > 1,
        }
    }

    /// Whether a binding, or an error, is what a request of a turn is bound by.
    pub open spec fn is_bound_by(
        self,
        binding: Result<ExecutionAuthBinding, AccountPoolError>,
    ) -> bool {
        match self {
            ExecutionAuthMode::Stock => binding == Ok::<_, AccountPoolError>(
                ExecutionAuthBinding::Stock,
            ),
            ExecutionAuthMode::Pooled(view) => match view.lease {
                Ok(account) => {
                    &&& binding matches Ok(ExecutionAuthBinding::Pooled(lease))
                    &&& lease.account() == Some(account)
                    &&& lease.manager() == account.auth_manager
                },
                Err(error) => binding == Err::<ExecutionAuthBinding, _>(error),
            },
        }
    }

    /// Captures the lease of the pool; the pool's own error where it has none to give.
    pub fn capture_binding(self) -> (binding: Result<ExecutionAuthBinding, AccountPoolError>)
        ensures
            self.is_bound_by(binding),
    {
        match self {
            ExecutionAuthMode::Stock => Ok(ExecutionAuthBinding::Stock),
            ExecutionAuthMode::Pooled(view) => match view.lease {
                Ok(account) => Ok(
                    ExecutionAuthBinding::Pooled(ExecutionAuthLease::from_account_lease(account)),
                ),
                Err(error) => Err(error),
            },
        }
    }

    pub fn is_pooled(&self) -> (pooled: bool)
        ensures
            pooled == (self is Pooled),
    {
        match self {
            ExecutionAuthMode::Stock => false,
            ExecutionAuthMode::Pooled(_) => true,
        }
    }
}

impl ExecutionAuthBinding {
    /// Whether a request on this binding is authenticated by `auth`.
    pub open spec fn is_authenticated_by(self, auth: Option<ExecutionRequestAuth>) -> bool {
        match (self, auth) {
            (ExecutionAuthBinding::Stock, None) => true,
            (ExecutionAuthBinding::Pooled(lease), Some(auth)) => {
                &&& auth.spec_identity() == (ExecutionRequestIdentity {
                    profile_id: lease.spec_profile_id(),
                    generation: lease.spec_generation(),
                })
                &&& auth.spec_auth_manager() == lease.manager()
            },
            _ => false,
        }
    }

    /// The authentication of a request on this binding; none of its own for the stock login.
    pub fn request_auth(&self) -> (auth: Option<ExecutionRequestAuth>)
        ensures
            self.is_authenticated_by(auth),
    {
        match self {
            ExecutionAuthBinding::Stock => None,
            ExecutionAuthBinding::Pooled(lease) => Some(lease.request_auth()),
        }
    }
}

/// Whether a turn may use the account pool at all.
#[derive(Clone, Copy, Debug, PartialEq, Eq, Structural)]
pub enum PoolEligibility {
    Eligible,
    Ineligible,
}

/// How the host is logged in.
#[derive(Clone, Copy, Debug, PartialEq, Eq, Structural)]
pub enum AuthMode {
    Chatgpt,
    ApiKey,
    ChatgptAuthTokens,
    BedrockApiKey,
    Other,
}

/// What the pool needs to know of a model provider.
#[derive(Clone, Debug, PartialEq, Eq)]
pub struct ModelProviderInfo {
    pub is_openai: bool,
    pub requires_openai_auth: bool,
    pub env_key: Option<String>,
    pub experimental_bearer_token: Option<String>,
    pub has_auth_command: bool,
    pub has_aws_auth: bool,
}

/// Only ChatGPT logins that Codex manages itself, on the built-in OpenAI provider with no
/// credentials of the provider's own, may use the pool.
pub open spec fn is_pool_eligible(
    provider_id: Seq<char>,
    provider: ModelProviderInfo,
    auth_mode: Option<AuthMode>,
    workload_identity_selected: bool,
) -> bool {
    &&& provider_id == OPENAI_PROVIDER_ID@
    &&& provider.is_openai
    &&& provider.requires_openai_auth
    &&& provider.env_key is None
    &&& provider.experimental_bearer_token is None
    &&& !provider.has_auth_command
    &&& !provider.has_aws_auth
    &&& (auth_mode is None || auth_mode == Some(AuthMode::Chatgpt))
    &&& !workload_identity_selected
}

pub fn pool_eligibility(
    provider_id: &str,
    provider: &ModelProviderInfo,
    auth_mode: Option<AuthMode>,
    workload_identity_selected: bool,
) -> (eligibility: PoolEligibility)
    ensures
        eligibility == (if is_pool_eligible(
            provider_id@,
            *provider,
            auth_mode,
            workload_identity_selected,
        ) {
            PoolEligibility::Eligible
        } else {
            PoolEligibility::Ineligible
        }),
{
    let managed_login = match auth_mode {
        None => true,
        Some(AuthMode::Chatgpt) => true,
        Some(_) => false,
    };
    if same_text(provider_id, OPENAI_PROVIDER_ID) && provider.is_openai
        && provider.requires_openai_auth && provider.env_key.is_none()
        && provider.experimental_bearer_token.is_none() && !provider.has_auth_command
        && !provider.has_aws_auth && managed_login && !workload_identity_selected {
        PoolEligibility::Eligible
    } else {
        PoolEligibility::Ineligible
    }
}

/// Whether a session skips its startup prewarm.
pub open spec fn skips_prewarm(eligibility: PoolEligibility, manifest_exists: bool) -> bool {
    eligibility == PoolEligibility::Eligible && manifest_exists
}

/// A session skips its startup prewarm where the turn may use a pool and one is configured: the
/// prewarmed connection would be bound to the stock login.
pub fn should_skip_startup_prewarm(eligibility: PoolEligibility, manifest_exists: bool) -> (skip:
    bool)
    ensures
        skip == skips_prewarm(eligibility, manifest_exists),
{
    match eligibility {
        PoolEligibility::Eligible => manifest_exists,
        PoolEligibility::Ineligible => false,
    }
}

/// The pool window of a backend window. A reset timestamp outside the calendar is dropped.
pub open spec fn spec_convert_window(window: RateLimitWindow) -> AccountRateLimitWindow {
    AccountRateLimitWindow {
        used_percent: window.used_percent,
        resets_at: match window.resets_at {
            Some(seconds) => UtcTime::spec_from_timestamp(seconds),
            None => None,
        },
        window_minutes: window.window_minutes,
    }
}

/// The pool limits of a backend snapshot that was observed at `observed_at`.
pub open spec fn spec_convert_limits(
    snapshot: RateLimitSnapshot,
    observed_at: UtcTime,
) -> AccountRateLimits {
    AccountRateLimits {
        primary: match snapshot.primary {
            Some(window) => Some(spec_convert_window(window)),
            None => None,
        },
        secondary: match snapshot.secondary {
            Some(window) => Some(spec_convert_window(window)),
            None => None,
        },
        observed_at: Some(observed_at),
    }
}

pub fn convert_rate_limit_window(window: &RateLimitWindow) -> (converted: AccountRateLimitWindow)
    ensures
        converted == spec_convert_window(*window),
{
    AccountRateLimitWindow {
        used_percent: window.used_percent,
        resets_at: match window.resets_at {
            Some(seconds) => UtcTime::from_timestamp(seconds),
            None => None,
        },
        window_minutes: window.window_minutes,
    }
}

pub fn convert_rate_limits(snapshot: &RateLimitSnapshot, observed_at: UtcTime) -> (converted:
    AccountRateLimits)
    ensures
        converted == spec_convert_limits(*snapshot, observed_at),
{
    AccountRateLimits {
        primary: match &snapshot.primary {
            Some(window) => Some(convert_rate_limit_window(window)),
            None => None,
        },
        secondary: match &snapshot.secondary {
            Some(window) => Some(convert_rate_limit_window(window)),
            None => None,
        },
        observed_at: Some(observed_at),
    }
}

/// An installed pool: the outer manager that follows the active account, and the scheduling knobs.
#[derive(Clone, Copy, Debug, PartialEq, Eq, Structural)]
pub struct PoolRuntime {
    pub auth_manager: u64,
    pub return_to_preferred: bool,
    pub rotation_strategy: AccountPoolRotationStrategy,
}

/// Execution authentication of one host login. A pool is installed lazily, once a profile manifest
/// exists; `revision` counts changes of the active account. Everything that shares the host login
/// shares this one state: it is borrowed, not copied.
#[derive(Debug, PartialEq, Eq, Structural)]
pub struct ExecutionAuth {
    pub legacy_manager: u64,
    pub runtime: Option<PoolRuntime>,
    pub revision: u64,
    /// Whether the warmup task of the pool runs.
    pub window_warmup_task: bool,
    /// Whether a warmup pass was asked for that has not begun.
    pub window_warmup_pass_requested: bool,
}

/// What has to be done about the pool before a turn.
#[derive(Clone, Copy, Debug, PartialEq, Eq, Structural)]
pub enum InstallAction {
    /// The turn runs on the stock login: the manifest is not even looked at.
    UseStockLogin,
    /// A pool is installed: register the profiles that were added since.
    RefreshInstalledPool,
    /// Try to install a pool from the manifest, with the existing root login among its profiles.
    TryInstall,
}

/// What came of an attempt to install or refresh the pool.
#[derive(Clone, Debug, PartialEq, Eq)]
pub enum InstallOutcome {
    Refreshed,
    /// A pool is installed; `newly_installed` where this attempt did it.
    Installed { auth_manager: u64, newly_installed: bool },
    /// There is no manifest. A later turn tries again.
    NotConfigured,
    Failed(String),
}

/// Whether the host now has to forward the changes of a new pool.
#[derive(Clone, Copy, Debug, PartialEq, Eq, Structural)]
pub enum InstallEffect {
    Nothing,
    SpawnPoolChangeBridge,
}

/// A decision to rotate away from an account before it hits a hard limit.
#[derive(Clone, Debug, PartialEq, Eq)]
pub struct PreemptiveRotation {
    pub lease: AccountLease,
    pub used_percent: Percent,
    pub resets_at: UtcTime,
}

/// One completed preemptive account rotation.
#[derive(Clone, Debug, PartialEq, Eq)]
pub struct PreemptiveSwitch {
    pub from_profile: String,
    pub to_profile: String,
    pub used_percent: Percent,
    pub resets_at: UtcTime,
}

/// What a failed request asks the pool to record of its account.
#[derive(Clone, Debug, PartialEq, Eq)]
pub enum PoolMutation {
    UpdateRateLimits { lease: AccountLease, rate_limits: AccountRateLimits },
    MarkExhausted {
        lease: AccountLease,
        resets_at: Option<UtcTime>,
        rate_limits: Option<AccountRateLimits>,
    },
    MarkAuthenticationUnavailable { lease: AccountLease, message: String },
}

/// Whether a window is depleted: usage has reached the threshold, and the window has not been reset
/// since. Without a reset timestamp, the observation has to be recent.
pub open spec fn is_depleted(
    window: AccountRateLimitWindow,
    threshold: Percent,
    observed_at: Option<UtcTime>,
    now: UtcTime,
) -> bool {
    &&& window.used_percent.is_at_least(threshold)
    &&& match window.resets_at {
        Some(resets_at) => resets_at.value() > now.value(),
        None => observed_at is Some && now.value() - observed_at->0.value()
            < STALE_OBSERVATION_SECONDS * crate::time::NANOS_PER_SECOND,
    }
}

/// The depleted window with the highest usage; the secondary one on a tie.
pub open spec fn most_depleted(
    limits: AccountRateLimits,
    threshold: Percent,
    now: UtcTime,
) -> Option<AccountRateLimitWindow> {
    let primary = limits.primary is Some && is_depleted(
        limits.primary->0,
        threshold,
        limits.observed_at,
        now,
    );
    let secondary = limits.secondary is Some && is_depleted(
        limits.secondary->0,
        threshold,
        limits.observed_at,
        now,
    );
    if primary && secondary {
        if limits.primary->0.used_percent.total_position()
            > limits.secondary->0.used_percent.total_position() {
            limits.primary
        } else {
            limits.secondary
        }
    } else if primary {
        limits.primary
    } else if secondary {
        limits.secondary
    } else {
        None
    }
}

fn window_is_depleted(
    window: &AccountRateLimitWindow,
    threshold: Percent,
    observed_at: Option<UtcTime>,
    now: UtcTime,
) -> (depleted: bool)
    ensures
        depleted == is_depleted(*window, threshold, observed_at, now),
{
    if !window.used_percent.ge(threshold) {
        return false;
    }
    match window.resets_at {
        Some(resets_at) => now.is_before(resets_at),
        None => match observed_at {
            Some(observed_at) => now.is_within(observed_at, STALE_OBSERVATION_SECONDS),
            None => false,
        },
    }
}

fn most_depleted_window(limits: &AccountRateLimits, threshold: Percent, now: UtcTime) -> (window:
    Option<AccountRateLimitWindow>)
    ensures
        window == most_depleted(*limits, threshold, now),
{
    let primary = match limits.primary {
        Some(window) => if window_is_depleted(&window, threshold, limits.observed_at, now) {
            Some(window)
        } else {
            None
        },
        None => None,
    };
    let secondary = match limits.secondary {
        Some(window) => if window_is_depleted(&window, threshold, limits.observed_at, now) {
            Some(window)
        } else {
            None
        },
        None => None,
    };
    match (primary, secondary) {
        (Some(primary), Some(secondary)) => if primary.used_percent.total_le(
            secondary.used_percent,
        ) {
            Some(secondary)
        } else {
            Some(primary)
        },
        (Some(primary), None) => Some(primary),
        (None, secondary) => secondary,
    }
}

impl ExecutionAuth {
    /// Authentication of a host login, with no pool installed.
    pub fn legacy(legacy_manager: u64) -> (auth: Self)
        ensures
            auth == Self::spec_legacy(legacy_manager),
    {
        ExecutionAuth {
            legacy_manager,
            runtime: None,
            revision: 0,
            window_warmup_task: false,
            window_warmup_pass_requested: false,
        }
    }

    /// Authentication of a host login, with no pool installed.
    pub open spec fn spec_legacy(legacy_manager: u64) -> ExecutionAuth {
        ExecutionAuth {
            legacy_manager,
            runtime: None,
            revision: 0,
            window_warmup_task: false,
            window_warmup_pass_requested: false,
        }
    }

    /// What has to be done about the pool before a turn.
    pub open spec fn action_before_turn(self, eligibility: PoolEligibility) -> InstallAction {
        match eligibility {
            PoolEligibility::Ineligible => InstallAction::UseStockLogin,
            PoolEligibility::Eligible => if self.runtime is Some {
                InstallAction::RefreshInstalledPool
            } else {
                InstallAction::TryInstall
            },
        }
    }

    /// What has to be done about the pool before a turn.
    pub fn install_action(&self, eligibility: PoolEligibility) -> (action: InstallAction)
        ensures
            action == self.action_before_turn(eligibility),
    {
        match eligibility {
            PoolEligibility::Ineligible => InstallAction::UseStockLogin,
            PoolEligibility::Eligible => if self.runtime.is_some() {
                InstallAction::RefreshInstalledPool
            } else {
                InstallAction::TryInstall
            },
        }
    }

    /// The state after an installation or a refresh under a configuration.
    pub open spec fn after_install(
        self,
        config: AccountPoolConfigToml,
        outcome: InstallOutcome,
    ) -> ExecutionAuth {
        match outcome {
            InstallOutcome::Refreshed => match self.runtime {
                Some(runtime) => ExecutionAuth {
                    runtime: Some(PoolRuntime::spec_configured(runtime.auth_manager, config)),
                    ..self
                },
                None => self,
            },
            InstallOutcome::Installed { auth_manager, newly_installed } => ExecutionAuth {
                runtime: Some(PoolRuntime::spec_configured(auth_manager, config)),
                revision: if newly_installed {
                    self.revision.wrapping_add(1)
                } else {
                    self.revision
                },
                ..self
            },
            InstallOutcome::NotConfigured => self,
            InstallOutcome::Failed(_) => self,
        }
    }

    /// What is left to do after an attempt to install or refresh the pool, or its error.
    pub open spec fn install_effect(outcome: InstallOutcome) -> Result<InstallEffect, String> {
        match outcome {
            InstallOutcome::Failed(error) => Err(error),
            InstallOutcome::Installed { newly_installed: true, .. } => Ok(
                InstallEffect::SpawnPoolChangeBridge,
            ),
            _ => Ok::<InstallEffect, String>(InstallEffect::Nothing),
        }
    }

    /// Takes over what came of an attempt to install or refresh the pool, and applies the
    /// scheduling knobs. A pool that is configured but cannot be installed is an error: the turn
    /// must not fall back to the stock login.
    pub fn install_runtime_from_config(
        &mut self,
        config: &AccountPoolConfigToml,
        outcome: InstallOutcome,
    ) -> (effect: Result<InstallEffect, String>)
        ensures
            *final(self) == old(self).after_install(*config, outcome),
            effect == ExecutionAuth::install_effect(outcome),
    {
        match outcome {
            InstallOutcome::Refreshed => {
                if let Some(runtime) = self.runtime {
                    self.runtime = Some(PoolRuntime::configured(runtime.auth_manager, config));
                }
                Ok(InstallEffect::Nothing)
            },
            InstallOutcome::Installed { auth_manager, newly_installed } => {
                self.runtime = Some(PoolRuntime::configured(auth_manager, config));
                if newly_installed {
                    self.notify_change();
                    Ok(InstallEffect::SpawnPoolChangeBridge)
                } else {
                    Ok(InstallEffect::Nothing)
                }
            },
            InstallOutcome::NotConfigured => Ok(InstallEffect::Nothing),
            InstallOutcome::Failed(error) => Err(error),
        }
    }

    /// Counts one change of the active account.
    pub fn notify_change(&mut self)
        ensures
            *final(self) == (ExecutionAuth {
                revision: old(self).revision.wrapping_add(1),
                ..*old(self)
            }),
    {
        self.revision = self.revision.wrapping_add(1);
    }

    /// Whether a turn is pooled.
    pub open spec fn is_pooled_turn(self, eligibility: PoolEligibility) -> bool {
        eligibility == PoolEligibility::Eligible && self.runtime is Some
    }

    /// The authentication of a turn.
    pub open spec fn spec_mode_for_turn(
        self,
        eligibility: PoolEligibility,
        pool: Option<AccountPoolView>,
    ) -> ExecutionAuthMode {
        if self.is_pooled_turn(eligibility) {
            ExecutionAuthMode::Pooled(pool->0)
        } else {
            ExecutionAuthMode::Stock
        }
    }

    /// Stock or pooled authentication for one turn, after the pool was looked after: pooled exactly
    /// where the turn is eligible and a pool is installed.
    pub fn mode_for_turn(
        &self,
        eligibility: PoolEligibility,
        pool: Option<AccountPoolView>,
    ) -> (mode: ExecutionAuthMode)
        requires
            self.runtime is Some <==> pool is Some,
        ensures
            mode == self.spec_mode_for_turn(eligibility, pool),
    {
        match (eligibility, pool) {
            (PoolEligibility::Eligible, Some(view)) => ExecutionAuthMode::Pooled(view),
            _ => ExecutionAuthMode::Stock,
        }
    }

    /// Whether a turn under this configuration is pooled.
    pub fn ensure_runtime_from_config(&self, eligibility: PoolEligibility) -> (pooled: bool)
        ensures
            pooled == self.is_pooled_turn(eligibility),
    {
        match eligibility {
            PoolEligibility::Eligible => self.runtime.is_some(),
            PoolEligibility::Ineligible => false,
        }
    }

    /// Manager for systems that do not hold leases.
    pub open spec fn outer_manager(self) -> u64 {
        match self.runtime {
            Some(runtime) => runtime.auth_manager,
            None => self.legacy_manager,
        }
    }

    /// Manager for account-aware side systems that do not hold leases: the outer manager of the
    /// pool, or the host's own.
    pub fn compatibility_auth_manager(&self) -> (manager: u64)
        ensures
            manager == self.outer_manager(),
    {
        match self.runtime {
            Some(runtime) => runtime.auth_manager,
            None => self.legacy_manager,
        }
    }

    /// Whether `lease` is the identity for a new account-bound request.
    pub open spec fn is_active_lease(
        self,
        pool: Option<&AccountPoolView>,
        lease: Option<ExecutionAuthLease>,
    ) -> bool {
        match pool {
            Some(view) => match view.lease {
                Ok(account) => {
                    &&& lease is Some
                    &&& lease->0.account() == Some(account)
                    &&& lease->0.manager() == account.auth_manager
                },
                Err(_) => lease is None,
            },
            None => {
                &&& lease is Some
                &&& lease->0.account() is None
                &&& lease->0.manager() == self.legacy_manager
            },
        }
    }

    /// The identity for a new account-bound request. Where a pool exists but has no account to
    /// lease, there is none: the root login may be the very account that is cooling down.
    pub fn active_lease(&self, pool: Option<&AccountPoolView>) -> (lease: Option<
        ExecutionAuthLease,
    >)
        ensures
            self.is_active_lease(pool, lease),
    {
        match pool {
            Some(view) => match &view.lease {
                Ok(account) => Some(ExecutionAuthLease::from_account_lease(account.copy())),
                Err(_) => None,
            },
            None => Some(ExecutionAuthLease::legacy(self.legacy_manager)),
        }
    }
}

impl PoolRuntime {
    pub open spec fn spec_configured(
        auth_manager: u64,
        config: AccountPoolConfigToml,
    ) -> PoolRuntime {
        PoolRuntime {
            auth_manager,
            return_to_preferred: config.return_to_preferred != Some(false),
            rotation_strategy: config.rotation_strategy_or_default(),
        }
    }

    fn configured(auth_manager: u64, config: &AccountPoolConfigToml) -> (runtime: PoolRuntime)
        ensures
            runtime == PoolRuntime::spec_configured(auth_manager, *config),
    {
        PoolRuntime {
            auth_manager,
            return_to_preferred: config.effective_return_to_preferred(),
            rotation_strategy: config.effective_rotation_strategy(),
        }
    }
}

/// Whether `id` is the profile that owns history from before execution provenance.
pub open spec fn is_unattributed_owner(pool: Option<&AccountPoolView>, id: Option<String>) -> bool {
    match id {
        Some(id) => {
            &&& id@ == LEGACY_ROOT_PROFILE_ID@
            &&& pool is Some
            &&& accounts::spec_find_profile(pool->0.snapshots@, LEGACY_ROOT_PROFILE_ID@) is Some
        },
        None => pool is None || accounts::spec_find_profile(
            pool->0.snapshots@,
            LEGACY_ROOT_PROFILE_ID@,
        ) is None,
    }
}

/// The profile that owns history from before execution provenance: the root profile, where the pool
/// has it. It remains meaningful after another profile became active.
pub fn legacy_unattributed_profile_id(pool: Option<&AccountPoolView>) -> (id: Option<String>)
    ensures
        is_unattributed_owner(pool, id),
{
    match pool {
        Some(view) => {
            let wanted = LEGACY_ROOT_PROFILE_ID.to_owned();
            match accounts::find_profile(&view.snapshots, &wanted) {
                Some(_) => Some(wanted),
                None => None,
            }
        },
        None => None,
    }
}

/// The rotation that a pool calls for, from its cached windows of the active account.
pub open spec fn rotation_due(
    view: AccountPoolView,
    threshold: Percent,
    now: UtcTime,
) -> Option<AccountRateLimitWindow> {
    match view.lease {
        Ok(lease) => match accounts::spec_find_profile(view.snapshots@, lease.profile_id@) {
            Some(index) => most_depleted(view.snapshots@[index].rate_limits, threshold, now),
            None => None,
        },
        Err(_) => None,
    }
}

/// Whether `rotation` is the one that a pool calls for: away from the leased account, with the usage
/// and the reset of its most depleted window.
pub open spec fn is_rotation_of(
    pool: Option<&AccountPoolView>,
    threshold: Percent,
    now: UtcTime,
    rotation: Option<PreemptiveRotation>,
) -> bool {
    match rotation {
        Some(rotation) => {
            &&& pool is Some
            &&& rotation_due(*pool->0, threshold, now) is Some
            &&& pool->0.lease == Ok::<AccountLease, AccountPoolError>(rotation.lease)
            &&& rotation.used_percent == rotation_due(*pool->0, threshold, now)->0.used_percent
            &&& rotation.resets_at == (match rotation_due(*pool->0, threshold, now)->0.resets_at {
                Some(resets_at) => resets_at,
                None => now.spec_plus(PREEMPTIVE_UNKNOWN_RESET_REPROBE_SECONDS),
            })
        },
        None => pool is None || rotation_due(*pool->0, threshold, now) is None,
    }
}

/// Decides whether to rotate away from the active account before it hits a hard usage limit. There
/// is nothing to do where no window has reached `threshold`, or the data is stale or already reset.
pub fn preemptive_rotation(
    pool: Option<&AccountPoolView>,
    threshold: Percent,
    now: UtcTime,
) -> (rotation: Option<PreemptiveRotation>)
    ensures
        is_rotation_of(pool, threshold, now, rotation),
{
    let view = match pool {
        Some(view) => view,
        None => {
            return None;
        },
    };
    let lease = match &view.lease {
        Ok(lease) => lease,
        Err(_) => {
            return None;
        },
    };
    let index: usize = match accounts::find_profile(&view.snapshots, &lease.profile_id) {
        Some(index) => index,
        None => {
            return None;
        },
    };
    match most_depleted_window(&view.snapshots[index].rate_limits, threshold, now) {
        Some(window) => Some(
            PreemptiveRotation {
                lease: lease.copy(),
                used_percent: window.used_percent,
                resets_at: match window.resets_at {
                    Some(resets_at) => resets_at,
                    None => now.plus(PREEMPTIVE_UNKNOWN_RESET_REPROBE_SECONDS),
                },
            },
        ),
        None => None,
    }
}

/// The switch that a rotation came to, where the pool found another account.
pub open spec fn switch_of(
    rotation: PreemptiveRotation,
    next: Option<AccountLease>,
) -> Option<PreemptiveSwitch> {
    match next {
        Some(next) => Some(
            PreemptiveSwitch {
                from_profile: rotation.lease.profile_id,
                to_profile: next.profile_id,
                used_percent: rotation.used_percent,
                resets_at: rotation.resets_at,
            },
        ),
        None => None,
    }
}

/// What is reported of a preemptive rotation: a switch where the pool found another account.
pub fn finish_preemptive_rotation(rotation: PreemptiveRotation, next: Option<AccountLease>) -> (
    switch: Option<PreemptiveSwitch>)
    ensures
        switch == switch_of(rotation, next),
{
    match next {
        Some(next) => Some(
            PreemptiveSwitch {
                from_profile: rotation.lease.profile_id,
                to_profile: next.profile_id,
                used_percent: rotation.used_percent,
                resets_at: rotation.resets_at,
            },
        ),
        None => None,
    }
}

/// What the pool records of rate limits that a lease observed.
pub open spec fn observation_of(
    pool_installed: bool,
    lease: ExecutionAuthLease,
    snapshot: RateLimitSnapshot,
    observed_at: UtcTime,
) -> Option<PoolMutation> {
    if pool_installed && lease.account() is Some {
        Some(
            PoolMutation::UpdateRateLimits {
                lease: lease.account()->0,
                rate_limits: spec_convert_limits(snapshot, observed_at),
            },
        )
    } else {
        None
    }
}

/// Associates observed rate limits with the exact lease that observed them. Nothing is recorded
/// without a pool, or for the stock login.
pub fn observe_rate_limits(
    pool_installed: bool,
    lease: &ExecutionAuthLease,
    snapshot: &RateLimitSnapshot,
    observed_at: UtcTime,
) -> (mutation: Option<PoolMutation>)
    ensures
        mutation == observation_of(pool_installed, *lease, *snapshot, observed_at),
{
    match lease.account_lease() {
        Some(account) if pool_installed => Some(
            PoolMutation::UpdateRateLimits {
                lease: account.copy(),
                rate_limits: convert_rate_limits(snapshot, observed_at),
            },
        ),
        _ => None,
    }
}

/// Marks the lease that received a quota rejection as exhausted. `None` stands for a pool with
/// nothing left: there is no pool, or the request ran on the stock login.
pub fn failover_after_quota_exhausted(
    pool_installed: bool,
    failed_lease: &ExecutionAuthLease,
    resets_at: Option<UtcTime>,
) -> (mutation: Option<PoolMutation>)
    ensures
        mutation == (if pool_installed && failed_lease.account() is Some {
            Some(
                PoolMutation::MarkExhausted {
                    lease: failed_lease.account()->0,
                    resets_at,
                    rate_limits: None,
                },
            )
        } else {
            None
        }),
{
    match failed_lease.account_lease() {
        Some(account) if pool_installed => Some(
            PoolMutation::MarkExhausted { lease: account.copy(), resets_at, rate_limits: None },
        ),
        _ => None,
    }
}

/// Marks the lease that received a usage-limit rejection as exhausted, together with the limits that
/// the rejection reported.
pub fn failover_after_usage_limit(
    pool_installed: bool,
    failed_lease: &ExecutionAuthLease,
    resets_at: UtcTime,
    snapshot: Option<&RateLimitSnapshot>,
    observed_at: UtcTime,
) -> (mutation: Option<PoolMutation>)
    ensures
        mutation == (if pool_installed && failed_lease.account() is Some {
            Some(
                PoolMutation::MarkExhausted {
                    lease: failed_lease.account()->0,
                    resets_at: Some(resets_at),
                    rate_limits: match snapshot {
                        Some(snapshot) => Some(spec_convert_limits(*snapshot, observed_at)),
                        None => None,
                    },
                },
            )
        } else {
            None
        }),
{
    let rate_limits = match snapshot {
        Some(snapshot) => Some(convert_rate_limits(snapshot, observed_at)),
        None => None,
    };
    match failed_lease.account_lease() {
        Some(account) if pool_installed => Some(
            PoolMutation::MarkExhausted {
                lease: account.copy(),
                resets_at: Some(resets_at),
                rate_limits,
            },
        ),
        _ => None,
    }
}

/// Marks the lease whose credentials could not be refreshed.
pub fn failover_after_auth_unavailable(
    pool_installed: bool,
    failed_lease: &ExecutionAuthLease,
    message: String,
) -> (mutation: Option<PoolMutation>)
    ensures
        mutation == (if pool_installed && failed_lease.account() is Some {
            Some(
                PoolMutation::MarkAuthenticationUnavailable {
                    lease: failed_lease.account()->0,
                    message,
                },
            )
        } else {
            None
        }),
{
    match failed_lease.account_lease() {
        Some(account) if pool_installed => Some(
            PoolMutation::MarkAuthenticationUnavailable { lease: account.copy(), message },
        ),
        _ => None,
    }
}

/// Execution authentication of every live host login, by the key of its manager.
#[derive(Debug, PartialEq, Eq)]
pub struct ExecutionAuthRegistry {
    pub entries: Vec<ExecutionAuth>,
}

impl ExecutionAuthRegistry {
    /// No two entries belong to one manager.
    pub open spec fn wf(self) -> bool {
        forall|i: int, j: int|
            0 <= i < j < self.entries@.len() ==> (#[trigger] self.entries@[i]).legacy_manager != (
            #[trigger] self.entries@[j]).legacy_manager
    }

    pub fn new() -> (registry: Self)
        ensures
            registry.entries@ == Seq::<ExecutionAuth>::empty(),
            registry.wf(),
    {
        ExecutionAuthRegistry { entries: Vec::new() }
    }

    /// Position of the entry of a manager. A manager that has none gets a new one; every other
    /// entry stays as it is.
    pub fn shared(&mut self, manager: u64) -> (index: usize)
        requires
            old(self).wf(),
        ensures
            final(self).wf(),
            index < final(self).entries@.len(),
            final(self).entries@[index as int].legacy_manager == manager,
            if index < old(self).entries@.len() {
                final(self).entries@ == old(self).entries@
            } else {
                final(self).entries@ == old(self).entries@.push(
                    ExecutionAuth::spec_legacy(manager),
                )
            },
    {
        let mut i: usize = 0;
        while i < self.entries.len()
            invariant
                i <= self.entries@.len(),
                *self == *old(self),
                old(self).wf(),
                forall|j: int|
                    0 <= j < i ==> (#[trigger] self.entries@[j]).legacy_manager != manager,
            decreases self.entries@.len() - i,
        {
            if self.entries[i].legacy_manager == manager {
                return i;
            }
            i = i + 1;
        }
        self.entries.push(ExecutionAuth::legacy(manager));
        i
    }
}

/// One manager has one entry: whatever is looked up for it, now or later, is the same entry.
pub proof fn law_registry_entry_is_unique(registry: ExecutionAuthRegistry, i: int, j: int)
    requires
        registry.wf(),
        0 <= i < registry.entries@.len(),
        0 <= j < registry.entries@.len(),
        registry.entries@[i].legacy_manager == registry.entries@[j].legacy_manager,
    ensures
        i == j,
{
    if i < j {
        assert(registry.entries@[i].legacy_manager != registry.entries@[j].legacy_manager);
    } else if j < i {
        assert(registry.entries@[j].legacy_manager != registry.entries@[i].legacy_manager);
    }
}

/// An installed pool stays installed, whatever a later attempt comes to.
pub proof fn law_installed_pool_stays_installed(
    auth: ExecutionAuth,
    config: AccountPoolConfigToml,
    outcome: InstallOutcome,
)
    requires
        auth.runtime is Some,
    ensures
        auth.after_install(config, outcome).runtime is Some,
        auth.after_install(config, outcome).legacy_manager == auth.legacy_manager,
{
}

/// An account is parked by a preemptive rotation only while its quota is really depleted: usage has
/// reached the threshold, and the cooldown ends after the present.
pub proof fn law_rotation_parks_depleted_accounts_only(
    view: AccountPoolView,
    threshold: Percent,
    now: UtcTime,
)
    requires
        rotation_due(view, threshold, now) is Some,
    ensures
        rotation_due(view, threshold, now)->0.used_percent.is_at_least(threshold),
        rotation_due(view, threshold, now)->0.resets_at matches Some(resets_at)
            ==> resets_at.value() > now.value(),
{
}

/// Whether the quota of a window is used up for now: usage has reached the threshold, and it is known
/// that the window has not been reset since, from a reset that is ahead or, where no reset is known,
/// from an observation of the last half hour.
pub open spec fn is_used_up(
    window: AccountRateLimitWindow,
    limits: AccountRateLimits,
    threshold: Percent,
    now: UtcTime,
) -> bool {
    &&& window.used_percent.is_at_least(threshold)
    &&& window.resets_at is Some ==> now.value() < window.resets_at->0.value()
    &&& window.resets_at is None ==> limits.observed_at is Some && now.value()
        < limits.observed_at->0.value() + 30 * 60 * 1_000_000_000
}

/// A rotation away from the active account is due as soon as either of its windows, the short one or
/// the long one, is used up. It goes by a window of that very account that is used up itself, and no
/// window of the account that is used up has a higher usage.
pub proof fn law_rotation_is_due_where_a_window_is_used_up(
    view: AccountPoolView,
    index: int,
    window: AccountRateLimitWindow,
    threshold: Percent,
    now: UtcTime,
)
    requires
        view.lease is Ok,
        0 <= index < view.snapshots@.len(),
        view.snapshots@[index].profile.id@ == view.lease->Ok_0.profile_id@,
        forall|i: int|
            0 <= i < index ==> (#[trigger] view.snapshots@[i]).profile.id@
                != view.lease->Ok_0.profile_id@,
        view.snapshots@[index].rate_limits.primary == Some(window)
            || view.snapshots@[index].rate_limits.secondary == Some(window),
        is_used_up(window, view.snapshots@[index].rate_limits, threshold, now),
    ensures
        rotation_due(view, threshold, now) matches Some(due) && {
            let limits = view.snapshots@[index].rate_limits;
            &&& limits.primary == Some(due) || limits.secondary == Some(due)
            &&& is_used_up(due, limits, threshold, now)
            &&& due.used_percent.is_at_least(window.used_percent)
        },
{
    seqs::lemma_first_where_is(
        view.snapshots@,
        accounts::is_of_profile(view.lease->Ok_0.profile_id@),
        index,
    );
}

/// A rotation is due only where a window of the active account is used up.
pub proof fn law_rotation_is_due_only_where_a_window_is_used_up(
    view: AccountPoolView,
    threshold: Percent,
    now: UtcTime,
)
    requires
        rotation_due(view, threshold, now) is Some,
    ensures
        view.lease is Ok,
        exists|index: int|
            0 <= index < view.snapshots@.len() && (#[trigger] view.snapshots@[index]).profile.id@
                == view.lease->Ok_0.profile_id@ && {
                let limits = view.snapshots@[index].rate_limits;
                let due = rotation_due(view, threshold, now)->0;
                &&& limits.primary == Some(due) || limits.secondary == Some(due)
                &&& is_used_up(due, limits, threshold, now)
            },
{
    let wanted = accounts::is_of_profile(view.lease->Ok_0.profile_id@);
    seqs::lemma_first_where(view.snapshots@, wanted);
    let index = seqs::first_where(view.snapshots@, wanted)->0;
    assert(wanted(view.snapshots@[index]));
}

/// A backend report reaches the pool whole: each window keeps its usage and its length, its reset
/// is the second that was reported, and a window stands in the pool exactly where one was reported.
pub proof fn law_report_reaches_the_pool_whole(snapshot: RateLimitSnapshot, observed_at: UtcTime)
    ensures
        ({
            let limits = spec_convert_limits(snapshot, observed_at);
            &&& limits.observed_at == Some(observed_at)
            &&& limits.primary is Some <==> snapshot.primary is Some
            &&& limits.secondary is Some <==> snapshot.secondary is Some
            &&& snapshot.primary is Some ==> is_report_of(limits.primary->0, snapshot.primary->0)
            &&& snapshot.secondary is Some ==> is_report_of(
                limits.secondary->0,
                snapshot.secondary->0,
            )
        }),
{
    if snapshot.primary is Some && snapshot.primary->0.resets_at is Some {
        observed_at.lemma_parts(snapshot.primary->0.resets_at->0, 0);
    }
    if snapshot.secondary is Some && snapshot.secondary->0.resets_at is Some {
        observed_at.lemma_parts(snapshot.secondary->0.resets_at->0, 0);
    }
}

/// Whether a window of the pool says what a window of a report said. A reset that no date exists
/// for is not said.
pub open spec fn is_report_of(window: AccountRateLimitWindow, reported: RateLimitWindow) -> bool {
    &&& window.used_percent == reported.used_percent
    &&& window.window_minutes == reported.window_minutes
    &&& match (window.resets_at, reported.resets_at) {
        (Some(at), Some(seconds)) => at.spec_seconds() == seconds && at.spec_nanos() == 0,
        (None, Some(seconds)) => seconds < -8_334_601_228_800 || 8_210_266_876_799 < seconds,
        (None, None) => true,
        (Some(_), None) => false,
    }
}

/// Only a login that Codex manages itself may use the pool, and only on the built-in provider with
/// no credentials of its own; nothing else is asked of it.
pub proof fn law_pool_serves_managed_logins_alone(
    provider_id: Seq<char>,
    provider: ModelProviderInfo,
    auth_mode: Option<AuthMode>,
    workload_identity_selected: bool,
)
    ensures
        is_pool_eligible(provider_id, provider, auth_mode, workload_identity_selected) ==> {
            &&& provider_id == "openai"@
            &&& auth_mode !is Some || auth_mode->0 is Chatgpt
            &&& !workload_identity_selected
        },
        is_pool_eligible(provider_id, provider, auth_mode, workload_identity_selected) ==> {
            &&& provider.is_openai && provider.requires_openai_auth
            &&& !(provider.env_key is Some) && !(provider.experimental_bearer_token is Some)
            &&& !(provider.has_auth_command || provider.has_aws_auth)
        },
        provider_id == "openai"@ && provider == (ModelProviderInfo {
            is_openai: true,
            requires_openai_auth: true,
            env_key: None,
            experimental_bearer_token: None,
            has_auth_command: false,
            has_aws_auth: false,
        }) && !workload_identity_selected ==> is_pool_eligible(
            provider_id,
            provider,
            None,
            false,
        ) && is_pool_eligible(provider_id, provider, Some(AuthMode::Chatgpt), false),
{
}

/// An installation changes the pool alone: the host's own login, and what the warmup is at, stay. A
/// pool that was there is never lost, and the active account counts as changed exactly where a
/// pool was newly installed.
pub proof fn law_installation_changes_the_pool_alone(
    auth: ExecutionAuth,
    config: AccountPoolConfigToml,
    outcome: InstallOutcome,
)
    ensures
        ({
            let after = auth.after_install(config, outcome);
            &&& after.legacy_manager == auth.legacy_manager
            &&& after.window_warmup_task == auth.window_warmup_task
            &&& after.window_warmup_pass_requested == auth.window_warmup_pass_requested
            &&& auth.runtime is Some ==> after.runtime is Some
            &&& outcome is NotConfigured || outcome is Failed ==> after == auth
            &&& outcome matches InstallOutcome::Installed { newly_installed, auth_manager } ==> {
                &&& after.runtime is Some && after.runtime->0.auth_manager == auth_manager
                &&& newly_installed ==> after.revision != auth.revision
                &&& newly_installed && auth.revision < u64::MAX ==> after.revision == auth.revision
                    + 1
            }
            &&& after.revision != auth.revision ==> (outcome matches InstallOutcome::Installed {
                newly_installed,
                ..
            } && newly_installed)
            &&& outcome is Refreshed && auth.runtime is Some ==> after.runtime->0.auth_manager
                == auth.runtime->0.auth_manager
            &&& outcome is Refreshed && auth.runtime is None ==> after.runtime is None
            &&& (outcome is Refreshed || outcome is Installed) && after.runtime is Some ==> {
                &&& after.runtime->0.return_to_preferred <==> !(config.return_to_preferred
                    matches Some(false))
                &&& config.rotation_strategy is Some ==> after.runtime->0.rotation_strategy
                    == config.rotation_strategy->0
                &&& config.rotation_strategy is None ==> after.runtime->0.rotation_strategy
                    is FillFirst
            }
        }),
{
}

/// Two leases that run on the same account under the same generation and manager are told apart
/// from every other: the identity that a request is sent under tells the lease.
pub proof fn law_lease_identity_tells_leases_apart(
    a: ExecutionAuthLease,
    b: ExecutionAuthLease,
    c: ExecutionAuthLease,
)
    ensures
        a.same_identity(a),
        a.same_identity(b) ==> b.same_identity(a),
        a.same_identity(b) && b.same_identity(c) ==> a.same_identity(c),
        a.same_identity(b) && a.account() is Some ==> b.account() is Some
            && a.account()->0.profile_id@ == b.account()->0.profile_id@
            && a.account()->0.generation == b.account()->0.generation && a.manager() == b.manager(),
        a.account() is Some && b.account() is None ==> !a.same_identity(b),
        a.account() is None && b.account() is None && a.manager() == b.manager()
            ==> a.same_identity(b),
{
}

/// A turn that may not use the pool never does, and one that may does so wherever a pool is
/// installed; until then an installation is tried. What is told before a turn and what the turn is
/// then agree.
pub proof fn law_pool_is_used_where_it_may_be(
    auth: ExecutionAuth,
    eligibility: PoolEligibility,
    pool: Option<AccountPoolView>,
    manifest_exists: bool,
)
    ensures
        auth.spec_mode_for_turn(eligibility, pool) is Pooled <==> eligibility is Eligible
            && auth.runtime is Some,
        auth.spec_mode_for_turn(eligibility, pool) matches ExecutionAuthMode::Pooled(view) ==> pool
            is Some ==> view == pool->0,
        auth.action_before_turn(eligibility) is UseStockLogin <==> eligibility is Ineligible,
        auth.action_before_turn(eligibility) is TryInstall <==> eligibility is Eligible
            && auth.runtime is None,
        auth.is_pooled_turn(eligibility) <==> auth.spec_mode_for_turn(eligibility, pool) is Pooled,
        auth.is_pooled_turn(eligibility) ==> auth.action_before_turn(eligibility)
            is RefreshInstalledPool,
        skips_prewarm(eligibility, manifest_exists) ==> eligibility is Eligible && manifest_exists,
        eligibility is Eligible && manifest_exists ==> skips_prewarm(eligibility, manifest_exists),
        auth.runtime is None ==> auth.outer_manager() == auth.legacy_manager,
        auth.runtime matches Some(runtime) ==> auth.outer_manager() == runtime.auth_manager,
{
}

/// A pool that has no account to lease never lets a request fall back to the host's own login: the
/// request has no identity, and the pool's error is passed on. Where the pool leases an account the
/// request runs on that account, through its own manager; without a pool it runs on the host's.
pub proof fn law_exhausted_pool_never_falls_back(
    auth: ExecutionAuth,
    pool: Option<&AccountPoolView>,
    lease: Option<ExecutionAuthLease>,
    mode: ExecutionAuthMode,
    binding: Result<ExecutionAuthBinding, AccountPoolError>,
)
    requires
        auth.is_active_lease(pool, lease),
        mode.is_bound_by(binding),
    ensures
        pool is Some && pool->0.lease is Err ==> lease is None,
        pool is Some && lease is Some ==> lease->0.account() is Some,
        pool matches Some(view) ==> (view.lease matches Ok(account) ==> lease is Some
            && lease->0.account() == Some(account) && lease->0.manager() == account.auth_manager),
        pool is None ==> lease is Some && lease->0.account() is None && lease->0.manager()
            == auth.legacy_manager,
        mode matches ExecutionAuthMode::Pooled(view) ==> {
            &&& view.lease matches Err(error) ==> binding == Err::<ExecutionAuthBinding, _>(error)
            &&& binding is Ok ==> binding->Ok_0 is Pooled
            &&& view.lease matches Ok(account) ==> (binding matches Ok(
                ExecutionAuthBinding::Pooled(bound),
            ) && bound.account() == Some(account) && bound.manager() == account.auth_manager)
        },
        mode is Stock ==> binding == Ok::<_, AccountPoolError>(ExecutionAuthBinding::Stock),
        mode.has_several_accounts() <==> mode is Pooled && mode->Pooled_0.snapshots@.len() >= 2,
{
}

/// A request is authenticated as the account that it is bound to, in that account's generation and
/// through that account's manager; a request of the stock login has no authentication of its own.
pub proof fn law_request_is_authenticated_as_its_account(
    binding: ExecutionAuthBinding,
    auth: Option<ExecutionRequestAuth>,
)
    requires
        binding.is_authenticated_by(auth),
    ensures
        binding is Stock <==> auth is None,
        binding matches ExecutionAuthBinding::Pooled(lease) ==> {
            &&& auth->0.spec_auth_manager() == lease.manager()
            &&& lease.account() is Some ==> auth->0.spec_identity().profile_id == Some(
                lease.account()->0.profile_id,
            ) && auth->0.spec_identity().generation == lease.account()->0.generation
            &&& lease.account() is None ==> auth->0.spec_identity().profile_id is None
                && auth->0.spec_identity().generation == 0
        },
{
}

/// A failed installation fails the turn, with its own error, and no other outcome does; clients are
/// bridged to the pool's changes exactly once, when it is newly installed.
pub proof fn law_failed_installation_fails_the_turn(outcome: InstallOutcome)
    ensures
        ExecutionAuth::install_effect(outcome) is Err <==> outcome is Failed,
        outcome matches InstallOutcome::Failed(error) ==> ExecutionAuth::install_effect(outcome)
            == Err::<InstallEffect, _>(error),
        ExecutionAuth::install_effect(outcome) matches Ok(effect) ==> (effect
            is SpawnPoolChangeBridge <==> (outcome matches InstallOutcome::Installed {
            newly_installed,
            ..
        } && newly_installed)),
{
}

/// A rotation is away from the account that the pool leases, tells the usage that called for it, and
/// lasts until that window's reset, or for ten minutes where no reset is known. The switch
/// that it comes to tells the same, and there is none where no other account was found.
pub proof fn law_rotation_tells_what_called_for_it(
    pool: Option<&AccountPoolView>,
    threshold: Percent,
    now: UtcTime,
    rotation: Option<PreemptiveRotation>,
    next: Option<AccountLease>,
)
    requires
        is_rotation_of(pool, threshold, now, rotation),
    ensures
        rotation is Some <==> pool is Some && rotation_due(*pool->0, threshold, now) is Some,
        rotation matches Some(made) ==> {
            let window = rotation_due(*pool->0, threshold, now)->0;
            &&& pool->0.lease is Ok && pool->0.lease->Ok_0 == made.lease
            &&& made.used_percent == window.used_percent
            &&& window.resets_at matches Some(resets_at) ==> made.resets_at == resets_at
            &&& window.resets_at is None ==> made.resets_at == now.spec_plus(600)
            &&& switch_of(made, next) is Some <==> next is Some
            &&& next matches Some(found) ==> {
                let switch = switch_of(made, next)->0;
                &&& switch.from_profile == made.lease.profile_id
                &&& switch.to_profile == found.profile_id
                &&& switch.used_percent == window.used_percent
                &&& switch.resets_at == made.resets_at
            }
        },
{
}

/// Limits are recorded for the very account whose request saw them, and only in a pool.
pub proof fn law_limits_are_recorded_for_their_account(
    pool_installed: bool,
    lease: ExecutionAuthLease,
    snapshot: RateLimitSnapshot,
    observed_at: UtcTime,
)
    ensures
        ({
            let recorded = observation_of(pool_installed, lease, snapshot, observed_at);
            &&& recorded is Some <==> pool_installed && lease.account() is Some
            &&& recorded is Some ==> (recorded->0 matches PoolMutation::UpdateRateLimits {
                lease: account,
                rate_limits,
            } && Some(account) == lease.account() && rate_limits == spec_convert_limits(
                snapshot,
                observed_at,
            ))
        }),
{
}

/// Where both windows are used up to the same degree, the long one is what a rotation goes by: the
/// account is gone for the longer time.
pub proof fn law_long_window_decides_a_tie(
    limits: AccountRateLimits,
    threshold: Percent,
    now: UtcTime,
)
    requires
        limits.primary is Some,
        limits.secondary is Some,
        is_used_up(limits.primary->0, limits, threshold, now),
        is_used_up(limits.secondary->0, limits, threshold, now),
        limits.primary->0.used_percent.bits == limits.secondary->0.used_percent.bits,
    ensures
        most_depleted(limits, threshold, now) == limits.secondary,
{
}

/// History from before execution provenance belongs to the root profile wherever the pool has one,
/// active or not, and to no profile otherwise.
pub proof fn law_old_history_belongs_to_the_root_profile(
    pool: Option<&AccountPoolView>,
    id: Option<String>,
    i: int,
)
    requires
        is_unattributed_owner(pool, id),
    ensures
        pool is None ==> id is None,
        id matches Some(owner) ==> owner@ == "legacy-root"@,
        pool matches Some(view) ==> (0 <= i < view.snapshots@.len()
            && view.snapshots@[i].profile.id@ == "legacy-root"@ ==> id is Some),
        pool matches Some(view) ==> ((forall|j: int|
            0 <= j < view.snapshots@.len() ==> (#[trigger] view.snapshots@[j]).profile.id@
                != "legacy-root"@) ==> id is None),
{
    if let Some(view) = pool {
        if 0 <= i < view.snapshots@.len() && view.snapshots@[i].profile.id@ == "legacy-root"@ {
            accounts::law_profile_is_found_where_it_first_stands(
                view.snapshots@,
                "legacy-root"@,
                i,
            );
        }
        if forall|j: int|
            0 <= j < view.snapshots@.len() ==> (#[trigger] view.snapshots@[j]).profile.id@
                != "legacy-root"@ {
            accounts::law_missing_profile_is_not_found(view.snapshots@, "legacy-root"@);
        }
    }
}

/// A login without a pool has its own manager and nothing else: no pool, no change counted, no
/// warmup.
pub proof fn law_host_login_starts_without_a_pool(manager: u64)
    ensures
        ({
            let auth = ExecutionAuth::spec_legacy(manager);
            &&& auth.legacy_manager == manager
            &&& auth.runtime is None
            &&& auth.revision == 0
            &&& !auth.window_warmup_task
            &&& !auth.window_warmup_pass_requested
        }),
{
}

} // verus!
