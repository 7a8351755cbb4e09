//! Opt-in automatic redemption of earned rate-limit reset credits.
//!
//! Credits are a limited resource. Automation runs only where every configured account is exhausted
//! and waiting for the earliest natural reset would take longer than the user wants to wait.
use vstd::prelude::*;

use crate::accounts::AccountLease;
use crate::accounts::ProfileAuthManager;
use crate::config::AccountPoolConfigToml;
use crate::config::AutoResetCredits;
use crate::execution_auth::AccountPoolError;
use crate::execution_auth::AccountPoolView;
use crate::execution_auth::ExecutionAuthLease;
use crate::failover_turn;
use crate::failover_turn::earliest_exhausted_reset;
use crate::reset_credit_singleflight::ResetCreditRescueAttemptKey;
use crate::seqs;
use crate::text::same_text;
use crate::time;
use crate::time::UtcTime;

verus! {

/// Seconds that a redemption may take.
pub const REDEEM_REQUEST_TIMEOUT_SECONDS: u64 = 10;

/// A redeemed credit: the failed profile is available and active again.
#[derive(Clone, Debug, PartialEq, Eq)]
pub struct ResetCreditRescue {
    pub profile_id: String,
}

/// A redemption to be made: the failure that calls for it, and the manager of the failed account's own
/// credentials, which the request is made with.
#[derive(Clone, Debug, PartialEq, Eq)]
pub struct ResetCreditRedemption {
    pub key: ResetCreditRescueAttemptKey,
    pub auth_manager: u64,
}

/// Redeeming is worth it where automation is enabled and the pool would otherwise stay unusable for
/// longer than `min_wait_minutes`. A nearby natural reset is free; without a known reset the pool
/// cannot recover on its own.
pub open spec fn is_worth_redeeming(
    mode: AutoResetCredits,
    min_wait_minutes: i64,
    earliest_reset: Option<UtcTime>,
    now: UtcTime,
) -> bool {
    &&& mode == AutoResetCredits::WhenPoolExhausted
    &&& earliest_reset matches Some(reset) ==> reset.value() - now.value() > min_wait_minutes * 60
        * time::NANOS_PER_SECOND
}

pub fn should_redeem(
    mode: AutoResetCredits,
    min_wait_minutes: i64,
    earliest_reset: Option<UtcTime>,
    now: UtcTime,
) -> (redeem: bool)
    ensures
        redeem == is_worth_redeeming(mode, min_wait_minutes, earliest_reset, now),
{
    match mode {
        AutoResetCredits::Never => false,
        AutoResetCredits::WhenPoolExhausted => match earliest_reset {
            Some(reset) => reset.is_later_by_more_than_minutes(now, min_wait_minutes),
            None => true,
        },
    }
}

/// The entries of a profile.
pub open spec fn is_manager_of(profile_id: Seq<char>) -> spec_fn(ProfileAuthManager) -> bool {
    |entry: ProfileAuthManager| entry.profile_id@ == profile_id
}

/// Whether redeeming is worth it for a pool, by the earliest reset of its exhausted accounts.
pub open spec fn pool_needs_credit(
    config: AccountPoolConfigToml,
    view: AccountPoolView,
    now: UtcTime,
) -> bool {
    exists|earliest: Option<UtcTime>| #[trigger]
        failover_turn::is_earliest_reset(view.snapshots@, earliest) && is_worth_redeeming(
            config.auto_reset_credits_or_default(),
            config.min_wait_minutes(),
            earliest,
            now,
        )
}

/// The redemption that a failure calls for: automation is enabled, the failed request ran on a pool
/// account whose credentials are registered, and redeeming is worth it.
pub open spec fn redemption_due(
    config: AccountPoolConfigToml,
    pool: Option<&AccountPoolView>,
    failed_lease: ExecutionAuthLease,
    now: UtcTime,
) -> Option<ResetCreditRedemption> {
    if pool is Some && failed_lease.spec_profile_id() is Some && pool_needs_credit(
        config,
        *pool->0,
        now,
    ) {
        let profile_id = failed_lease.spec_profile_id()->0;
        match seqs::first_where(pool->0.auth_managers@, is_manager_of(profile_id@)) {
            Some(i) => Some(
                ResetCreditRedemption {
                    key: ResetCreditRescueAttemptKey {
                        profile_id,
                        generation: failed_lease.spec_generation(),
                    },
                    auth_manager: pool->0.auth_managers@[i].auth_manager,
                },
            ),
            None => None,
        }
    } else {
        None
    }
}

/// Two earliest cooldown ends of one pool are the same instant.
proof fn lemma_earliest_reset_is_unique(
    snapshots: Seq<crate::accounts::AccountPoolSnapshot>,
    a: Option<UtcTime>,
    b: Option<UtcTime>,
)
    requires
        failover_turn::is_earliest_reset(snapshots, a),
        failover_turn::is_earliest_reset(snapshots, b),
    ensures
        a is Some <==> b is Some,
        a is Some ==> a->0.value() == b->0.value(),
{
    if a is Some {
        let i = choose|i: int|
            0 <= i < snapshots.len() && failover_turn::exhausted_reset(#[trigger] snapshots[i])
                == a;
        assert(failover_turn::exhausted_reset(snapshots[i]) is Some);
    }
    if b is Some {
        let i = choose|i: int|
            0 <= i < snapshots.len() && failover_turn::exhausted_reset(#[trigger] snapshots[i])
                == b;
        assert(failover_turn::exhausted_reset(snapshots[i]) is Some);
    }
}

/// Decides whether to redeem a credit for the account that just exhausted the pool.
pub fn try_reset_credit_rescue(
    config: &AccountPoolConfigToml,
    pool: Option<&AccountPoolView>,
    failed_lease: &ExecutionAuthLease,
    now: UtcTime,
) -> (redemption: Option<ResetCreditRedemption>)
    ensures
        redemption == redemption_due(*config, pool, *failed_lease, now),
{
    let mode = config.effective_auto_reset_credits();
    match mode {
        AutoResetCredits::Never => {
            return None;
        },
        AutoResetCredits::WhenPoolExhausted => {},
    }
    let view = match pool {
        Some(view) => view,
        None => {
            return None;
        },
    };
    let profile_id = match failed_lease.profile_id_owned() {
        Some(id) => id,
        None => {
            return None;
        },
    };
    let earliest_reset = earliest_exhausted_reset(pool);
    let redeem = should_redeem(
        mode,
        config.effective_reset_credit_min_wait_minutes(),
        earliest_reset,
        now,
    );
    proof {
        assert forall|other: Option<UtcTime>| #[trigger]
            failover_turn::is_earliest_reset(view.snapshots@, other) implies is_worth_redeeming(
            config.auto_reset_credits_or_default(),
            config.min_wait_minutes(),
            other,
            now,
        ) == redeem by {
            lemma_earliest_reset_is_unique(view.snapshots@, earliest_reset, other);
        }
    }
    if !redeem {
        return None;
    }
    let managers = &view.auth_managers;
    let ghost wanted = is_manager_of(profile_id@);
    let mut i: usize = 0;
    while i < managers.len()
        invariant
            i <= managers@.len(),
            wanted == is_manager_of(profile_id@),
            forall|j: int| 0 <= j < i ==> !wanted(#[trigger] managers@[j]),
            pool == Some(view),
            *managers == view.auth_managers,
            pool_needs_credit(*config, *view, now),
            failed_lease.spec_profile_id() == Some(profile_id),
        decreases managers@.len() - i,
    {
        if managers[i].profile_id == profile_id {
            proof {
                seqs::lemma_first_where_is(managers@, wanted, i as int);
            }
            return Some(
                ResetCreditRedemption {
                    key: ResetCreditRescueAttemptKey {
                        profile_id,
                        generation: failed_lease.generation(),
                    },
                    auth_manager: managers[i].auth_manager,
                },
            );
        }
        i = i + 1;
    }
    proof {
        seqs::lemma_first_where(managers@, wanted);
    }
    None
}

/// What became of a redemption request.
#[derive(Clone, Debug, PartialEq, Eq)]
pub enum RedeemReply {
    /// The profile is not logged in.
    NotLoggedIn,
    /// The profile's login does not use the Codex backend.
    OtherBackend,
    /// The backend answered with this code.
    Code(String),
    Failed,
    TimedOut,
}

/// Whether a reply says that a credit was consumed.
pub open spec fn says_reset(reply: RedeemReply) -> bool {
    reply matches RedeemReply::Code(code) && code@ == "reset"@
}

/// Whether a credit was consumed: only where the backend says that it reset the limits.
pub fn consume_reset_credit_for_profile(reply: &RedeemReply) -> (consumed: bool)
    ensures
        consumed == says_reset(*reply),
{
    match reply {
        RedeemReply::Code(code) => same_text(code.as_str(), "reset"),
        _ => false,
    }
}

/// The rescue that an activation after a redemption comes to.
pub open spec fn rescue_of(
    profile_id: String,
    activated: Result<AccountLease, AccountPoolError>,
) -> Option<ResetCreditRescue> {
    if activated is Ok {
        Some(ResetCreditRescue { profile_id })
    } else {
        None
    }
}

/// A rescue is reported only where the pool could activate the profile again.
pub fn reactivate_redeemed_profile(
    profile_id: String,
    activated: &Result<AccountLease, AccountPoolError>,
) -> (rescue: Option<ResetCreditRescue>)
    ensures
        rescue == rescue_of(profile_id, *activated),
{
    match activated {
        Ok(_) => Some(ResetCreditRescue { profile_id }),
        Err(_) => None,
    }
}

/// Without the user's consent nothing is redeemed, whatever the state of the pool.
pub proof fn law_redemption_is_opt_in(
    config: AccountPoolConfigToml,
    pool: Option<&AccountPoolView>,
    failed_lease: ExecutionAuthLease,
    now: UtcTime,
)
    requires
        config.auto_reset_credits != Some(AutoResetCredits::WhenPoolExhausted),
    ensures
        redemption_due(config, pool, failed_lease, now) is None,
{
}

/// A credit is only ever redeemed for the account that failed, with credentials that the pool has
/// registered for that very account.
pub proof fn law_redemption_uses_the_failed_account(
    config: AccountPoolConfigToml,
    pool: Option<&AccountPoolView>,
    failed_lease: ExecutionAuthLease,
    now: UtcTime,
)
    ensures
        redemption_due(config, pool, failed_lease, now) matches Some(redemption) ==> {
            &&& failed_lease.spec_profile_id() == Some(redemption.key.profile_id)
            &&& failed_lease.spec_generation() == redemption.key.generation
            &&& exists|i: int|
                0 <= i < pool->0.auth_managers@.len() && (
                #[trigger] pool->0.auth_managers@[i]).profile_id@ == redemption.key.profile_id@
                    && pool->0.auth_managers@[i].auth_manager == redemption.auth_manager
        },
{
    if redemption_due(config, pool, failed_lease, now) is Some {
        let managers = pool->0.auth_managers@;
        let wanted = is_manager_of(failed_lease.spec_profile_id()->0@);
        seqs::lemma_first_where(managers, wanted);
        let i = seqs::first_where(managers, wanted)->0;
        assert(managers[i].profile_id@ == failed_lease.spec_profile_id()->0@);
    }
}

/// Waiting longer before a redemption never makes one happen that would not happen otherwise.
pub proof fn law_longer_wait_redeems_less(
    mode: AutoResetCredits,
    shorter: i64,
    longer: i64,
    earliest_reset: Option<UtcTime>,
    now: UtcTime,
)
    requires
        shorter <= longer,
        is_worth_redeeming(mode, longer, earliest_reset, now),
    ensures
        is_worth_redeeming(mode, shorter, earliest_reset, now),
{
}

/// Every pool has an earliest cooldown end, or none of its accounts names one.
proof fn lemma_earliest_reset_exists(snapshots: Seq<crate::accounts::AccountPoolSnapshot>) -> (earliest:
    Option<UtcTime>)
    ensures
        failover_turn::is_earliest_reset(snapshots, earliest),
    decreases snapshots.len(),
{
    if snapshots.len() == 0 {
        None
    } else {
        let rest = snapshots.drop_last();
        let last = snapshots.len() - 1;
        let before = lemma_earliest_reset_exists(rest);
        let own = failover_turn::exhausted_reset(snapshots[last]);
        let earliest = if own is Some && (before is None || own->0.value() < before->0.value()) {
            own
        } else {
            before
        };
        assert forall|i: int| 0 <= i < last implies rest[i] == snapshots[i] by {}
        if earliest is Some {
            let witness = if earliest == own {
                last
            } else {
                choose|i: int|
                    0 <= i < rest.len() && failover_turn::exhausted_reset(#[trigger] rest[i])
                        == before
            };
            assert(failover_turn::exhausted_reset(snapshots[witness]) == earliest);
        }
        assert forall|i: int|
            0 <= i < snapshots.len() && failover_turn::exhausted_reset(
                #[trigger] snapshots[i],
            ) is Some implies earliest is Some && earliest->0.value()
            <= failover_turn::exhausted_reset(snapshots[i])->0.value() by {
            if i < last {
                assert(failover_turn::exhausted_reset(rest[i]) is Some);
            }
        }
        earliest
    }
}

/// Whether an account is back by itself within some minutes.
pub open spec fn is_back_within(
    snapshot: crate::accounts::AccountPoolSnapshot,
    minutes: int,
    now: UtcTime,
) -> bool {
    snapshot.availability matches crate::accounts::AccountAvailability::Exhausted {
        resets_at: Some(reset),
    } && reset.value() <= now.value() + minutes * 60_000_000_000
}

/// Where the user agreed to it and the failed account's credentials are at hand, a credit is
/// redeemed exactly where no exhausted account of the pool is back by itself within the configured
/// wait: an hour unless another is set.
pub proof fn law_credit_is_redeemed_where_waiting_takes_long(
    config: AccountPoolConfigToml,
    pool: Option<&AccountPoolView>,
    failed_lease: ExecutionAuthLease,
    now: UtcTime,
    minutes: int,
    i: int,
)
    requires
        config.auto_reset_credits == Some(AutoResetCredits::WhenPoolExhausted),
        match config.auto_reset_credit_min_wait_minutes {
            Some(wait) => minutes == wait >= 0 || (minutes == 0 && wait < 0),
            None => minutes == 60,
        },
        pool is Some,
        failed_lease.account() is Some,
        0 <= i < pool->0.auth_managers@.len(),
        pool->0.auth_managers@[i].profile_id@ == failed_lease.account()->0.profile_id@,
    ensures
        redemption_due(config, pool, failed_lease, now) is None <==> exists|j: int|
            0 <= j < pool->0.snapshots@.len() && is_back_within(
                #[trigger] pool->0.snapshots@[j],
                minutes,
                now,
            ),
{
    let snapshots = pool->0.snapshots@;
    let managers = pool->0.auth_managers@;
    let wanted = is_manager_of(failed_lease.account()->0.profile_id@);
    seqs::lemma_first_where(managers, wanted);
    if seqs::first_where(managers, wanted) is None {
        assert(!wanted(managers[i]));
    }
    let earliest = lemma_earliest_reset_exists(snapshots);
    if redemption_due(config, pool, failed_lease, now) is None {
        assert(failover_turn::is_earliest_reset(snapshots, earliest));
        assert(!is_worth_redeeming(
            config.auto_reset_credits_or_default(),
            config.min_wait_minutes(),
            earliest,
            now,
        ));
        let j = choose|j: int|
            0 <= j < snapshots.len() && failover_turn::exhausted_reset(#[trigger] snapshots[j])
                == earliest;
        assert(is_back_within(snapshots[j], minutes, now));
    } else {
        assert forall|j: int| 0 <= j < snapshots.len() implies !is_back_within(
            #[trigger] snapshots[j],
            minutes,
            now,
        ) by {
            let due = choose|due: Option<UtcTime>| #[trigger]
                failover_turn::is_earliest_reset(snapshots, due) && is_worth_redeeming(
                    config.auto_reset_credits_or_default(),
                    config.min_wait_minutes(),
                    due,
                    now,
                );
            if is_back_within(snapshots[j], minutes, now) {
                assert(failover_turn::exhausted_reset(snapshots[j]) is Some);
            }
        }
    }
}

/// A credit counts as consumed on the backend's word for it alone, and a rescue is reported exactly
/// where the redeemed profile is active again, under its own id.
pub proof fn law_rescue_is_reported_where_it_succeeded(
    reply: RedeemReply,
    profile_id: String,
    activated: Result<AccountLease, AccountPoolError>,
)
    ensures
        says_reset(reply) ==> reply is Code,
        reply matches RedeemReply::Code(code) ==> (says_reset(reply) <==> code@ == "reset"@),
        rescue_of(profile_id, activated) is Some <==> activated is Ok,
        rescue_of(profile_id, activated) matches Some(rescue) ==> rescue.profile_id == profile_id,
{
}

} // verus!
