//! Execution accounts as the pool presents them: profiles, leases, availability and observed rate
//! limits.
use vstd::prelude::*;

use crate::percent::Percent;
use crate::seqs;
use crate::text::copy_opt_text;
use crate::time::UtcTime;

verus! {

/// Id of the profile that stands for the login that existed before account pooling.
pub const LEGACY_ROOT_PROFILE_ID: &'static str = "legacy-root";

/// Subscription plan of an account.
#[derive(Clone, Debug, PartialEq, Eq)]
pub enum PlanType {
    Plus,
    Pro,
    Team,
    Business,
    /// Any other plan, with its name and whether its accounts belong to a workspace.
    Other { name: String, workspace_account: bool },
}

impl PlanType {
    /// Whether accounts of this plan belong to a workspace.
    pub open spec fn spec_is_workspace_account(self) -> bool {
        match self {
            PlanType::Plus | PlanType::Pro => false,
            PlanType::Team | PlanType::Business => true,
            PlanType::Other { workspace_account, .. } => workspace_account,
        }
    }

    /// Whether accounts of this plan belong to a workspace.
    pub fn is_workspace_account(&self) -> (workspace: bool)
        ensures
            workspace == self.spec_is_workspace_account(),
    {
        match self {
            PlanType::Plus | PlanType::Pro => false,
            PlanType::Team | PlanType::Business => true,
            PlanType::Other { workspace_account, .. } => *workspace_account,
        }
    }

    /// The same plan.
    pub fn copy(&self) -> (plan: PlanType)
        ensures
            plan == *self,
    {
        match self {
            PlanType::Plus => PlanType::Plus,
            PlanType::Pro => PlanType::Pro,
            PlanType::Team => PlanType::Team,
            PlanType::Business => PlanType::Business,
            PlanType::Other { name, workspace_account } => PlanType::Other {
                name: name.clone(),
                workspace_account: *workspace_account,
            },
        }
    }
}

/// Which limit a usage-limit rejection ran into.
#[derive(Clone, Copy, Debug, PartialEq, Eq, Structural)]
pub enum RateLimitReachedType {
    RateLimitReached,
    WorkspaceOwnerCreditsDepleted,
    WorkspaceMemberCreditsDepleted,
    WorkspaceOwnerUsageLimitReached,
    WorkspaceMemberUsageLimitReached,
}

/// One rate-limit window as the backend reports it.
#[derive(Clone, Copy, Debug, PartialEq, Eq, Structural)]
pub struct RateLimitWindow {
    pub used_percent: Percent,
    pub window_minutes: Option<i64>,
    pub resets_at: Option<i64>,
}

/// Rate limits of one account as the backend reports them.
#[derive(Clone, Debug, PartialEq, Eq)]
pub struct RateLimitSnapshot {
    pub limit_id: Option<String>,
    pub limit_name: Option<String>,
    pub primary: Option<RateLimitWindow>,
    pub secondary: Option<RateLimitWindow>,
    pub plan_type: Option<PlanType>,
    pub rate_limit_reached_type: Option<RateLimitReachedType>,
}

/// One rate-limit window as the pool caches it.
#[derive(Clone, Copy, Debug, PartialEq, Eq, Structural)]
pub struct AccountRateLimitWindow {
    pub used_percent: Percent,
    pub resets_at: Option<UtcTime>,
    pub window_minutes: Option<i64>,
}

/// Rate limits of one account as the pool caches them.
#[derive(Clone, Copy, Debug, PartialEq, Eq, Structural)]
pub struct AccountRateLimits {
    pub primary: Option<AccountRateLimitWindow>,
    pub secondary: Option<AccountRateLimitWindow>,
    pub observed_at: Option<UtcTime>,
}

/// Whether an account can be scheduled.
#[derive(Clone, Debug, PartialEq, Eq)]
pub enum AccountAvailability {
    Available,
    Exhausted { resets_at: Option<UtcTime> },
    AuthenticationUnavailable { reason: String },
    Disabled,
}

#[derive(Clone, Copy, Debug, PartialEq, Eq, Structural)]
pub enum WindowWarmupOutcome {
    Succeeded,
    Failed,
    SkippedNoAuth,
}

/// What the last warmup of a standby account came to.
#[derive(Clone, Copy, Debug, PartialEq, Eq, Structural)]
pub struct WindowWarmupObservation {
    pub outcome: WindowWarmupOutcome,
    pub attempted_at: UtcTime,
    pub retry_after: Option<UtcTime>,
    pub consecutive_failures: u32,
}

impl AccountAvailability {
    /// The same availability.
    pub fn copy(&self) -> (availability: AccountAvailability)
        ensures
            availability == *self,
    {
        match self {
            AccountAvailability::Available => AccountAvailability::Available,
            AccountAvailability::Exhausted { resets_at } => AccountAvailability::Exhausted {
                resets_at: *resets_at,
            },
            AccountAvailability::AuthenticationUnavailable { reason } =>
                AccountAvailability::AuthenticationUnavailable { reason: reason.clone() },
            AccountAvailability::Disabled => AccountAvailability::Disabled,
        }
    }
}

#[derive(Clone, Debug, PartialEq, Eq)]
pub struct AccountProfile {
    pub id: String,
    pub label: Option<String>,
    pub priority: u32,
}

/// The pool's view of one account.
#[derive(Clone, Debug, PartialEq, Eq)]
pub struct AccountPoolSnapshot {
    pub profile: AccountProfile,
    pub availability: AccountAvailability,
    pub is_active: bool,
    pub rate_limits: AccountRateLimits,
    pub window_warmup: Option<WindowWarmupObservation>,
}

impl AccountPoolSnapshot {
    /// The same snapshot.
    pub fn copy(&self) -> (snapshot: AccountPoolSnapshot)
        ensures
            snapshot == *self,
    {
        AccountPoolSnapshot {
            profile: AccountProfile {
                id: self.profile.id.clone(),
                label: copy_opt_text(&self.profile.label),
                priority: self.profile.priority,
            },
            availability: self.availability.copy(),
            is_active: self.is_active,
            rate_limits: self.rate_limits,
            window_warmup: self.window_warmup,
        }
    }
}

/// A registered profile, and the key of the authentication manager of its credentials.
#[derive(Clone, Debug, PartialEq, Eq)]
pub struct ProfileAuthManager {
    pub profile_id: String,
    pub auth_manager: u64,
}

/// One scheduling decision of the pool: an account, the generation of the decision, and the key of
/// the authentication manager that the account's requests are bound to.
#[derive(Clone, Debug, PartialEq, Eq)]
pub struct AccountLease {
    pub profile_id: String,
    pub generation: u64,
    pub auth_manager: u64,
}

impl AccountLease {
    /// The same lease.
    pub fn copy(&self) -> (lease: AccountLease)
        ensures
            lease == *self,
    {
        AccountLease {
            profile_id: self.profile_id.clone(),
            generation: self.generation,
            auth_manager: self.auth_manager,
        }
    }
}

/// Whether a snapshot is of a profile.
pub open spec fn is_of_profile(id: Seq<char>) -> spec_fn(AccountPoolSnapshot) -> bool {
    |snapshot: AccountPoolSnapshot| snapshot.profile.id@ == id
}

/// Position of the first snapshot of a profile.
pub open spec fn spec_find_profile(snapshots: Seq<AccountPoolSnapshot>, id: Seq<char>) -> Option<
    int,
> {
    seqs::first_where(snapshots, is_of_profile(id))
}

/// Position of the first snapshot of a profile.
pub fn find_profile(snapshots: &Vec<AccountPoolSnapshot>, id: &String) -> (found: Option<usize>)
    ensures
        match found {
            Some(index) => index < snapshots@.len() && spec_find_profile(snapshots@, id@) == Some(
                index as int,
            ) && snapshots@[index as int].profile.id@ == id@,
            None => spec_find_profile(snapshots@, id@) is None,
        },
{
    let ghost wanted = is_of_profile(id@);
    let mut i: usize = 0;
    while i < snapshots.len()
        invariant
            i <= snapshots@.len(),
            wanted == is_of_profile(id@),
            forall|j: int| 0 <= j < i ==> !wanted(#[trigger] snapshots@[j]),
        decreases snapshots@.len() - i,
    {
        if snapshots[i].profile.id == *id {
            proof {
                seqs::lemma_first_where_is(snapshots@, wanted, i as int);
            }
            return Some(i);
        }
        i = i + 1;
    }
    proof {
        seqs::lemma_first_where(snapshots@, wanted);
    }
    None
}

/// A profile is found where it stands first, and not found only where it does not stand at all.
pub proof fn law_profile_is_found_where_it_first_stands(
    snapshots: Seq<AccountPoolSnapshot>,
    id: Seq<char>,
    i: int,
)
    requires
        0 <= i < snapshots.len(),
        snapshots[i].profile.id@ == id,
    ensures
        spec_find_profile(snapshots, id) matches Some(found) && 0 <= found <= i
            && snapshots[found].profile.id@ == id,
        (forall|j: int| 0 <= j < i ==> (#[trigger] snapshots[j]).profile.id@ != id)
            ==> spec_find_profile(snapshots, id) == Some(i),
{
    let wanted = is_of_profile(id);
    seqs::lemma_first_where(snapshots, wanted);
    assert(wanted(snapshots[i]));
    if forall|j: int| 0 <= j < i ==> (#[trigger] snapshots[j]).profile.id@ != id {
        seqs::lemma_first_where_is(snapshots, wanted, i);
    }
}

/// A profile that no snapshot is of is not found.
pub proof fn law_missing_profile_is_not_found(snapshots: Seq<AccountPoolSnapshot>, id: Seq<char>)
    requires
        forall|j: int| 0 <= j < snapshots.len() ==> (#[trigger] snapshots[j]).profile.id@ != id,
    ensures
        spec_find_profile(snapshots, id) is None,
{
    seqs::lemma_first_where(snapshots, is_of_profile(id));
}

} // verus!
