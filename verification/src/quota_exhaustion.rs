//! Whether a usage-limit rejection belongs to the execution profile that sent the request.
//!
//! After a rotation, a stale connection can still present the previous account's credentials, and
//! the backend then answers with that account's quota error.
use vstd::prelude::*;

use crate::accounts::PlanType;
use crate::accounts::RateLimitReachedType;
use crate::accounts::RateLimitSnapshot;
use crate::text::same_text;
use crate::time::UtcTime;

verus! {

/// The backend's rejection of a request for its usage limit.
#[derive(Clone, Debug, PartialEq, Eq)]
pub struct UsageLimitReachedError {
    pub plan_type: Option<PlanType>,
    pub resets_at: Option<UtcTime>,
    pub rate_limits: Option<RateLimitSnapshot>,
    pub promo_message: Option<String>,
    pub rate_limit_reached_type: Option<RateLimitReachedType>,
}

/// Whether a limit exists for workspace accounts alone.
pub open spec fn is_workspace_limit(reached_type: RateLimitReachedType) -> bool {
    reached_type != RateLimitReachedType::RateLimitReached
}

pub fn is_workspace_rate_limit(reached_type: RateLimitReachedType) -> (workspace: bool)
    ensures
        workspace == is_workspace_limit(reached_type),
{
    match reached_type {
        RateLimitReachedType::WorkspaceOwnerCreditsDepleted
        | RateLimitReachedType::WorkspaceMemberCreditsDepleted
        | RateLimitReachedType::WorkspaceOwnerUsageLimitReached
        | RateLimitReachedType::WorkspaceMemberUsageLimitReached => true,
        RateLimitReachedType::RateLimitReached => false,
    }
}

/// Whether the quotas of two plans are kept together: workspace plans with workspace plans, all
/// others with each other.
pub open spec fn share_quota_bucket(left: PlanType, right: PlanType) -> bool {
    left.spec_is_workspace_account() == right.spec_is_workspace_account()
}

pub fn plans_share_quota_bucket(left: &PlanType, right: &PlanType) -> (shared: bool)
    ensures
        shared == share_quota_bucket(*left, *right),
{
    let shared = same_text(quota_bucket(left), quota_bucket(right));
    proof {
        reveal_strlit("workspace");
        reveal_strlit("consumer");
        assert("workspace"@.len() != "consumer"@.len());
    }
    shared
}

/// Name of the bucket that a plan's quota is kept in.
pub fn quota_bucket(plan: &PlanType) -> (bucket: &'static str)
    ensures
        bucket@ == (if plan.spec_is_workspace_account() {
            "workspace"@
        } else {
            "consumer"@
        }),
{
    if plan.is_workspace_account() {
        "workspace"
    } else {
        "consumer"
    }
}

/// Whether a rejection fits a profile of a known plan: a workspace limit is only reached by a
/// workspace account, and every plan that the rejection names shares its quota with the profile's.
pub open spec fn fits_plan(limit: UsageLimitReachedError, profile_plan: PlanType) -> bool {
    &&& limit.rate_limit_reached_type matches Some(reached_type) ==> is_workspace_limit(
        reached_type,
    ) ==> profile_plan.spec_is_workspace_account()
    &&& limit.plan_type matches Some(error_plan) ==> share_quota_bucket(error_plan, profile_plan)
    &&& limit.rate_limits matches Some(snapshot) ==> snapshot.plan_type matches Some(
        error_plan,
    ) ==> share_quota_bucket(error_plan, profile_plan)
}

/// Whether a rejection may be the profile's own.
pub open spec fn may_be_of_profile(
    logged_in: bool,
    profile_plan: Option<&PlanType>,
    limit: UsageLimitReachedError,
) -> bool {
    !logged_in || profile_plan is None || fits_plan(limit, *profile_plan->0)
}

/// Returns `false` where a rejection likely reflects another identity than the profile that the
/// request was bound to. A profile that is not logged in, or whose plan is unknown, cannot be
/// contradicted.
pub fn usage_limit_matches_profile(
    logged_in: bool,
    profile_plan: Option<&PlanType>,
    limit: &UsageLimitReachedError,
) -> (matching: bool)
    ensures
        matching == may_be_of_profile(logged_in, profile_plan, *limit),
{
    if !logged_in {
        return true;
    }
    let profile_plan = match profile_plan {
        Some(plan) => plan,
        None => {
            return true;
        },
    };
    if let Some(reached_type) = limit.rate_limit_reached_type {
        if is_workspace_rate_limit(reached_type) && !profile_plan.is_workspace_account() {
            return false;
        }
    }
    if let Some(error_plan) = &limit.plan_type {
        if !plans_share_quota_bucket(error_plan, profile_plan) {
            return false;
        }
    }
    if let Some(snapshot) = &limit.rate_limits {
        if let Some(error_plan) = &snapshot.plan_type {
            if !plans_share_quota_bucket(error_plan, profile_plan) {
                return false;
            }
        }
    }
    true
}

/// Sharing a quota bucket is an equivalence: plans fall into classes.
pub proof fn law_quota_buckets_are_classes(a: PlanType, b: PlanType, c: PlanType)
    ensures
        share_quota_bucket(a, a),
        share_quota_bucket(a, b) ==> share_quota_bucket(b, a),
        share_quota_bucket(a, b) && share_quota_bucket(b, c) ==> share_quota_bucket(a, c),
{
}

/// A rejection that names nothing, or nothing but the profile's own plan, is never held against it.
pub proof fn law_own_plan_always_fits(limit: UsageLimitReachedError, profile_plan: PlanType)
    requires
        limit.rate_limit_reached_type is None,
        limit.plan_type matches Some(plan) ==> plan == profile_plan,
        limit.rate_limits matches Some(snapshot) ==> snapshot.plan_type matches Some(
            plan,
        ) ==> plan == profile_plan,
    ensures
        fits_plan(limit, profile_plan),
{
}

/// Whether a plan is sold to workspaces.
pub open spec fn is_sold_to_workspaces(plan: PlanType) -> bool {
    ||| plan is Team
    ||| plan is Business
    ||| plan matches PlanType::Other { workspace_account: true, .. }
}

/// A rejection is held against a profile exactly where something that it names contradicts the
/// profile's plan: a plan of the other sort, in the rejection or in the limits that came with it, or
/// a limit of workspaces where the profile is in none.
pub proof fn law_only_contradictions_are_held_against_a_profile(
    limit: UsageLimitReachedError,
    profile_plan: PlanType,
)
    ensures
        !fits_plan(limit, profile_plan) <==> {
            ||| limit.plan_type is Some && is_sold_to_workspaces(limit.plan_type->0)
                != is_sold_to_workspaces(profile_plan)
            ||| limit.rate_limits is Some && limit.rate_limits->0.plan_type is Some
                && is_sold_to_workspaces(limit.rate_limits->0.plan_type->0)
                != is_sold_to_workspaces(profile_plan)
            ||| !is_sold_to_workspaces(profile_plan) && limit.rate_limit_reached_type is Some
                && limit.rate_limit_reached_type->0 !is RateLimitReached
        },
{
}

/// A profile is contradicted only where it is logged in and its plan is known, and then exactly by
/// what does not fit that plan.
pub proof fn law_unknown_profiles_are_never_contradicted(
    logged_in: bool,
    profile_plan: Option<&PlanType>,
    limit: UsageLimitReachedError,
)
    ensures
        !logged_in ==> may_be_of_profile(logged_in, profile_plan, limit),
        profile_plan is None ==> may_be_of_profile(logged_in, profile_plan, limit),
        logged_in && profile_plan is Some ==> (may_be_of_profile(logged_in, profile_plan, limit)
            <==> fits_plan(limit, *profile_plan->0)),
{
}

} // verus!
