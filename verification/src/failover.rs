//! Account failover: what an inference error does to the account that it came from.
use vstd::prelude::*;

use crate::accounts::AccountLease;
use crate::execution_auth;
use crate::execution_auth::failover_after_auth_unavailable;
use crate::execution_auth::failover_after_quota_exhausted;
use crate::execution_auth::failover_after_usage_limit;
use crate::execution_auth::ExecutionAuthLease;
use crate::execution_auth::PoolMutation;
use crate::quota_exhaustion::UsageLimitReachedError;
use crate::time::UtcTime;

verus! {

/// Credit-depletion responses do not always name a reset. Such an account is probed again after
/// this many seconds.
pub const UNKNOWN_QUOTA_RESET_REPROBE_SECONDS: u64 = 600;

/// A reset at or before the present would make the exhausted account eligible at once. Every
/// cooldown lasts at least this many seconds.
pub const MINIMUM_QUOTA_COOLDOWN_SECONDS: u64 = 60;

/// Why a request failed.
#[derive(Clone, Debug, PartialEq, Eq)]
pub enum CodexErrorDetails {
    UsageLimitReached(UsageLimitReachedError),
    QuotaExceeded,
    /// The profile's own refresh and recovery path is exhausted.
    RefreshTokenFailed(String),
    TurnAborted,
    UnsupportedOperation(String),
    Other(String),
}

/// What a client is told of an error.
#[derive(Clone, Copy, Debug, PartialEq, Eq, Structural)]
pub enum CodexErrorInfo {
    UsageLimitExceeded,
    Other,
}

impl CodexErrorDetails {
    /// What a client is told of the error.
    pub open spec fn spec_protocol_error(self) -> CodexErrorInfo {
        if self is UsageLimitReached || self is QuotaExceeded {
            CodexErrorInfo::UsageLimitExceeded
        } else {
            CodexErrorInfo::Other
        }
    }

    /// Both kinds of quota rejection lead to the cooldown display of a client.
    pub fn to_codex_protocol_error(&self) -> (info: CodexErrorInfo)
        ensures
            info == self.spec_protocol_error(),
    {
        match self {
            CodexErrorDetails::UsageLimitReached(_) | CodexErrorDetails::QuotaExceeded =>
                CodexErrorInfo::UsageLimitExceeded,
            _ => CodexErrorInfo::Other,
        }
    }
}

/// Why account failover was attempted.
#[derive(Clone, Copy, Debug, PartialEq, Eq, Structural)]
pub enum FailoverCause {
    /// The backend rejected the account for its usage.
    UsageLimitReached,
    /// The account's credentials could not be recovered.
    AuthenticationUnavailable,
}

/// What the pool made of a failed account.
#[derive(Clone, Debug, PartialEq, Eq)]
pub enum AccountAvailabilityMutation {
    Rebound(AccountLease),
    InactiveProfileUpdated { active: Option<AccountLease> },
    StaleIgnored { active: Option<AccountLease> },
    PoolExhausted,
}

/// Result of handling an inference error through the account pool.
#[derive(Clone, Debug, PartialEq, Eq)]
pub enum FailoverOutcome {
    /// The error is unrelated to account availability.
    NotApplicable,
    /// The failed lease was rotated to another account generation.
    Rebound {
        cause: FailoverCause,
        from_profile: Option<String>,
        from_generation: u64,
        to_profile: Option<String>,
        to_generation: u64,
    },
    /// The failure was recorded, or ignored as stale, while another account was already active.
    ActiveUnchanged {
        cause: FailoverCause,
        failed_profile: Option<String>,
        failed_generation: u64,
        active_profile: Option<String>,
        active_generation: u64,
    },
    /// Every configured account is unavailable.
    PoolExhausted { cause: FailoverCause },
}

/// What has to be done about an inference error.
#[derive(Clone, Debug, PartialEq, Eq)]
pub enum FailoverStep {
    /// The error is unrelated to account availability.
    NotApplicable,
    /// The pool has to record this; its answer goes to [`FailoverCoordinator::finish_mutation`].
    /// Without a mutation the answer is that the pool is exhausted.
    Mutate { mutation: Option<PoolMutation>, cause: FailoverCause },
}

/// End of the cooldown of an exhausted account: its reported reset, or the time of the next probe,
/// but no earlier than the minimum cooldown.
pub open spec fn cooldown_end(resets_at: Option<UtcTime>, now: UtcTime) -> UtcTime {
    let wanted = match resets_at {
        Some(resets_at) => resets_at,
        None => now.spec_plus(UNKNOWN_QUOTA_RESET_REPROBE_SECONDS),
    };
    let earliest = now.spec_plus(MINIMUM_QUOTA_COOLDOWN_SECONDS);
    if wanted.value() > earliest.value() {
        wanted
    } else {
        earliest
    }
}

pub fn quota_reset_or_reprobe(resets_at: Option<UtcTime>, now: UtcTime) -> (reset: UtcTime)
    ensures
        reset == cooldown_end(resets_at, now),
{
    let wanted = match resets_at {
        Some(resets_at) => resets_at,
        None => now.plus(UNKNOWN_QUOTA_RESET_REPROBE_SECONDS),
    };
    let earliest = now.plus(MINIMUM_QUOTA_COOLDOWN_SECONDS);
    if earliest.is_before(wanted) {
        wanted
    } else {
        earliest
    }
}

/// Every cooldown lasts at least a minute, never ends before a reported reset, and is finite where
/// none is reported.
pub proof fn law_cooldown_is_never_too_short(resets_at: Option<UtcTime>, now: UtcTime)
    requires
        now.spec_seconds() + UNKNOWN_QUOTA_RESET_REPROBE_SECONDS <= crate::time::LAST_SECOND,
    ensures
        cooldown_end(resets_at, now).value() >= now.value() + MINIMUM_QUOTA_COOLDOWN_SECONDS
            * crate::time::NANOS_PER_SECOND,
        resets_at matches Some(reset) ==> cooldown_end(resets_at, now).value() >= reset.value(),
        resets_at is None ==> cooldown_end(resets_at, now).value() == now.value()
            + UNKNOWN_QUOTA_RESET_REPROBE_SECONDS * crate::time::NANOS_PER_SECOND,
{
    now.lemma_parts(
        (now.spec_seconds() + UNKNOWN_QUOTA_RESET_REPROBE_SECONDS) as i64,
        now.spec_nanos(),
    );
    now.lemma_parts(
        (now.spec_seconds() + MINIMUM_QUOTA_COOLDOWN_SECONDS) as i64,
        now.spec_nanos(),
    );
}

/// Coordinates account lifecycle changes without owning transport or turn replay semantics.
pub struct FailoverCoordinator;

impl FailoverCoordinator {
    /// What an inference error on a lease leads to.
    pub open spec fn step_after(
        pool_installed: bool,
        failed_lease: ExecutionAuthLease,
        error: CodexErrorDetails,
        now: UtcTime,
    ) -> FailoverStep {
        let on_pool = pool_installed && failed_lease.account() is Some;
        match error {
            CodexErrorDetails::UsageLimitReached(limit) => FailoverStep::Mutate {
                mutation: if on_pool {
                    Some(
                        PoolMutation::MarkExhausted {
                            lease: failed_lease.account()->0,
                            resets_at: Some(cooldown_end(limit.resets_at, now)),
                            rate_limits: match limit.rate_limits {
                                Some(snapshot) => Some(
                                    execution_auth::spec_convert_limits(snapshot, now),
                                ),
                                None => None,
                            },
                        },
                    )
                } else {
                    None
                },
                cause: FailoverCause::UsageLimitReached,
            },
            CodexErrorDetails::QuotaExceeded => FailoverStep::Mutate {
                mutation: if on_pool {
                    Some(
                        PoolMutation::MarkExhausted {
                            lease: failed_lease.account()->0,
                            resets_at: Some(cooldown_end(None, now)),
                            rate_limits: None,
                        },
                    )
                } else {
                    None
                },
                cause: FailoverCause::UsageLimitReached,
            },
            CodexErrorDetails::RefreshTokenFailed(message) => FailoverStep::Mutate {
                mutation: if on_pool {
                    Some(
                        PoolMutation::MarkAuthenticationUnavailable {
                            lease: failed_lease.account()->0,
                            message,
                        },
                    )
                } else {
                    None
                },
                cause: FailoverCause::AuthenticationUnavailable,
            },
            _ => FailoverStep::NotApplicable,
        }
    }

    /// Decides what an inference error does to the account of the lease that the request was bound
    /// to. The lease is authoritative, whatever plan the rejection names.
    pub fn handle_inference_error(
        pool_installed: bool,
        failed_lease: &ExecutionAuthLease,
        error: &CodexErrorDetails,
        now: UtcTime,
    ) -> (step: FailoverStep)
        ensures
            step == FailoverCoordinator::step_after(pool_installed, *failed_lease, *error, now),
    {
        match error {
            CodexErrorDetails::UsageLimitReached(limit) => {
                let reset_at = quota_reset_or_reprobe(limit.resets_at, now);
                FailoverStep::Mutate {
                    mutation: failover_after_usage_limit(
                        pool_installed,
                        failed_lease,
                        reset_at,
                        limit.rate_limits.as_ref(),
                        now,
                    ),
                    cause: FailoverCause::UsageLimitReached,
                }
            },
            CodexErrorDetails::QuotaExceeded => {
                let reset_at = quota_reset_or_reprobe(None, now);
                FailoverStep::Mutate {
                    mutation: failover_after_quota_exhausted(
                        pool_installed,
                        failed_lease,
                        Some(reset_at),
                    ),
                    cause: FailoverCause::UsageLimitReached,
                }
            },
            CodexErrorDetails::RefreshTokenFailed(message) => FailoverStep::Mutate {
                mutation: failover_after_auth_unavailable(
                    pool_installed,
                    failed_lease,
                    message.clone(),
                ),
                cause: FailoverCause::AuthenticationUnavailable,
            },
            _ => FailoverStep::NotApplicable,
        }
    }

    /// The outcome of a mutation of the pool.
    pub open spec fn outcome_of(
        failed_lease: ExecutionAuthLease,
        mutation: AccountAvailabilityMutation,
        cause: FailoverCause,
    ) -> FailoverOutcome {
        match mutation {
            AccountAvailabilityMutation::Rebound(next) => FailoverOutcome::Rebound {
                cause,
                from_profile: failed_lease.spec_profile_id(),
                from_generation: failed_lease.spec_generation(),
                to_profile: Some(next.profile_id),
                to_generation: next.generation,
            },
            AccountAvailabilityMutation::InactiveProfileUpdated { active: Some(active) } =>
                FailoverOutcome::ActiveUnchanged {
                cause,
                failed_profile: failed_lease.spec_profile_id(),
                failed_generation: failed_lease.spec_generation(),
                active_profile: Some(active.profile_id),
                active_generation: active.generation,
            },
            AccountAvailabilityMutation::StaleIgnored { active: Some(active) } =>
                FailoverOutcome::ActiveUnchanged {
                cause,
                failed_profile: failed_lease.spec_profile_id(),
                failed_generation: failed_lease.spec_generation(),
                active_profile: Some(active.profile_id),
                active_generation: active.generation,
            },
            _ => FailoverOutcome::PoolExhausted { cause },
        }
    }

    /// What a mutation of the pool means for the failed request.
    pub fn finish_mutation(
        failed_lease: &ExecutionAuthLease,
        mutation: AccountAvailabilityMutation,
        cause: FailoverCause,
    ) -> (outcome: FailoverOutcome)
        ensures
            outcome == FailoverCoordinator::outcome_of(*failed_lease, mutation, cause),
    {
        match mutation {
            AccountAvailabilityMutation::Rebound(next) => FailoverOutcome::Rebound {
                cause,
                from_profile: failed_lease.profile_id_owned(),
                from_generation: failed_lease.generation(),
                to_profile: Some(next.profile_id),
                to_generation: next.generation,
            },
            AccountAvailabilityMutation::InactiveProfileUpdated { active: Some(active) }
            | AccountAvailabilityMutation::StaleIgnored { active: Some(active) } =>
                FailoverOutcome::ActiveUnchanged {
                cause,
                failed_profile: failed_lease.profile_id_owned(),
                failed_generation: failed_lease.generation(),
                active_profile: Some(active.profile_id),
                active_generation: active.generation,
            },
            AccountAvailabilityMutation::PoolExhausted
            | AccountAvailabilityMutation::InactiveProfileUpdated { active: None }
            | AccountAvailabilityMutation::StaleIgnored { active: None } =>
                FailoverOutcome::PoolExhausted { cause },
        }
    }
}

/// A cooldown ends at the reported reset where that is more than a minute away, a minute from now
/// where it is not, and in ten minutes where no reset is reported.
pub proof fn law_cooldown_ends_at_the_reset(resets_at: Option<UtcTime>, now: UtcTime)
    requires
        now.spec_seconds() + 600 <= crate::time::LAST_SECOND,
    ensures
        ({
            let end = cooldown_end(resets_at, now).value();
            let in_a_minute = now.value() + 60 * 1_000_000_000;
            &&& resets_at is Some && resets_at->0.value() > in_a_minute ==> end
                == resets_at->0.value()
            &&& resets_at is Some && resets_at->0.value() <= in_a_minute ==> end == in_a_minute
            &&& resets_at is None ==> end == now.value() + 600 * 1_000_000_000
        }),
{
    now.lemma_parts((now.spec_seconds() + 600) as i64, now.spec_nanos());
    now.lemma_parts((now.spec_seconds() + 60) as i64, now.spec_nanos());
}

/// The pool is changed exactly on errors that are about an account's availability, and then the
/// account of the failed request is the one that is marked: exhausted, until its cooldown ends and
/// with the limits that came along, or without credentials. A request on no pool account marks
/// nothing.
pub proof fn law_failed_account_is_the_one_marked(
    pool_installed: bool,
    failed_lease: ExecutionAuthLease,
    error: CodexErrorDetails,
    now: UtcTime,
)
    ensures
        ({
            let step = FailoverCoordinator::step_after(pool_installed, failed_lease, error, now);
            let is_about_quota = error is UsageLimitReached || error is QuotaExceeded;
            &&& step is NotApplicable <==> !is_about_quota && error !is RefreshTokenFailed
            &&& step matches FailoverStep::Mutate { mutation, cause } ==> {
                &&& cause is UsageLimitReached <==> is_about_quota
                &&& cause is AuthenticationUnavailable <==> error is RefreshTokenFailed
                &&& mutation is Some <==> pool_installed && failed_lease.account() is Some
                &&& mutation matches Some(
                    PoolMutation::MarkExhausted { lease, resets_at, rate_limits },
                ) ==> {
                    &&& is_about_quota
                    &&& Some(lease) == failed_lease.account()
                    &&& resets_at is Some
                    &&& error matches CodexErrorDetails::UsageLimitReached(limit) ==> {
                        &&& resets_at == Some(cooldown_end(limit.resets_at, now))
                        &&& rate_limits is Some <==> limit.rate_limits is Some
                        &&& rate_limits is Some ==> rate_limits->0
                            == execution_auth::spec_convert_limits(limit.rate_limits->0, now)
                    }
                    &&& error is QuotaExceeded ==> resets_at == Some(cooldown_end(None, now))
                        && rate_limits is None
                }
                &&& mutation matches Some(
                    PoolMutation::MarkAuthenticationUnavailable { lease, message },
                ) ==> Some(lease) == failed_lease.account() && error
                    == CodexErrorDetails::RefreshTokenFailed(message)
                &&& mutation is Some ==> (mutation->0 is MarkExhausted <==> is_about_quota)
                &&& mutation is Some ==> (mutation->0 is MarkAuthenticationUnavailable
                    <==> error is RefreshTokenFailed)
            }
        }),
{
}

/// Whatever the pool did, the outcome tells what account is active now: the one that the pool
/// names, by its profile and generation, beside the account that failed. The pool counts as
/// exhausted exactly where it names none.
pub proof fn law_outcome_names_the_failed_and_the_active_account(
    failed_lease: ExecutionAuthLease,
    mutation: AccountAvailabilityMutation,
    cause: FailoverCause,
)
    ensures
        ({
            let outcome = FailoverCoordinator::outcome_of(failed_lease, mutation, cause);
            let active = match mutation {
                AccountAvailabilityMutation::Rebound(next) => Some(next),
                AccountAvailabilityMutation::InactiveProfileUpdated { active } => active,
                AccountAvailabilityMutation::StaleIgnored { active } => active,
                AccountAvailabilityMutation::PoolExhausted => None,
            };
            &&& outcome is PoolExhausted <==> active is None
            &&& outcome is Rebound <==> mutation is Rebound
            &&& outcome !is NotApplicable
            &&& outcome matches FailoverOutcome::Rebound {
                cause: told,
                from_profile,
                from_generation,
                to_profile,
                to_generation,
            } ==> {
                &&& told == cause
                &&& from_profile == failed_lease.spec_profile_id()
                &&& from_generation == failed_lease.spec_generation()
                &&& to_profile == Some(active->0.profile_id)
                &&& to_generation == active->0.generation
            }
            &&& outcome matches FailoverOutcome::ActiveUnchanged {
                cause: told,
                failed_profile,
                failed_generation,
                active_profile,
                active_generation,
            } ==> {
                &&& told == cause
                &&& failed_profile == failed_lease.spec_profile_id()
                &&& failed_generation == failed_lease.spec_generation()
                &&& active_profile == Some(active->0.profile_id)
                &&& active_generation == active->0.generation
            }
            &&& outcome matches FailoverOutcome::PoolExhausted { cause: told } ==> told == cause
        }),
{
}

/// A client shows the cooldown display for a rejection over quota, of either kind, and for no other
/// error.
pub proof fn law_quota_rejections_are_shown_as_cooldowns(error: CodexErrorDetails)
    ensures
        error is UsageLimitReached ==> error.spec_protocol_error() is UsageLimitExceeded,
        error is QuotaExceeded ==> error.spec_protocol_error() is UsageLimitExceeded,
        error is RefreshTokenFailed || error is TurnAborted || error is UnsupportedOperation
            || error is Other ==> error.spec_protocol_error() is Other,
{
}

} // verus!
