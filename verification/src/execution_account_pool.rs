//! The account pool as the application sees it.
use vstd::prelude::*;

use crate::account_window_warmup::INITIAL_WARMUP_SETTLE_SECONDS;
use crate::accounts::AccountLease;
use crate::accounts::AccountPoolSnapshot;
use crate::accounts::ProfileAuthManager;
use crate::execution_auth::AccountPoolError;
use crate::execution_auth::AccountPoolView;
use crate::execution_auth::ExecutionAuth;
use crate::execution_auth::PoolEligibility;

verus! {

/// An account and the generation in which it became active.
#[derive(Clone, Debug, PartialEq, Eq)]
pub struct ExecutionAccountIdentity {
    pub profile_id: String,
    pub generation: u64,
}

/// The identity of a lease.
pub open spec fn identity_of(lease: AccountLease) -> ExecutionAccountIdentity {
    ExecutionAccountIdentity { profile_id: lease.profile_id, generation: lease.generation }
}

pub fn identity_from_lease(lease: &AccountLease) -> (identity: ExecutionAccountIdentity)
    ensures
        identity == identity_of(*lease),
{
    ExecutionAccountIdentity { profile_id: lease.profile_id.clone(), generation: lease.generation }
}

/// Handle on the execution authentication of a host login, with what its pool shows. The state is the
/// login's own, so that a change through the handle is a change of the login.
pub struct ExecutionAccountPoolHandle<'a> {
    pub inner: &'a mut ExecutionAuth,
    pub pool: Option<AccountPoolView>,
}

impl<'a> ExecutionAccountPoolHandle<'a> {
    /// The state of the login as the handle now finds it.
    pub open spec fn auth(self) -> ExecutionAuth {
        *self.inner
    }

    /// A pool is shown exactly where one is installed.
    pub open spec fn wf(self) -> bool {
        self.auth().runtime is Some <==> self.pool is Some
    }

    /// Handle on the entry of a host login, with what its pool shows.
    pub fn shared(inner: &'a mut ExecutionAuth, pool: Option<AccountPoolView>) -> (handle: Self)
        requires
            old(inner).runtime is Some <==> pool is Some,
        ensures
            handle.wf(),
            handle.auth() == *old(inner),
            *final(handle.inner) == *final(inner),
            handle.pool == pool,
    {
        ExecutionAccountPoolHandle { inner, pool }
    }

    /// Whether turns of an eligible configuration are pooled.
    pub fn ensure_from_config(&self, eligibility: PoolEligibility) -> (pooled: bool)
        ensures
            pooled == (eligibility == PoolEligibility::Eligible && self.auth().runtime is Some),
    {
        self.inner.ensure_runtime_from_config(eligibility)
    }

    /// The accounts of the pool; none where there is no pool.
    pub fn snapshots(&self) -> (snapshots: Vec<AccountPoolSnapshot>)
        ensures
            snapshots@ == (match self.pool {
                Some(view) => view.snapshots@,
                None => Seq::empty(),
            }),
    {
        let mut snapshots: Vec<AccountPoolSnapshot> = Vec::new();
        if let Some(view) = &self.pool {
            let mut i: usize = 0;
            while i < view.snapshots.len()
                invariant
                    i <= view.snapshots@.len(),
                    snapshots@ =~= view.snapshots@.take(i as int),
                decreases view.snapshots@.len() - i,
            {
                snapshots.push(view.snapshots[i].copy());
                i = i + 1;
            }
        }
        snapshots
    }

    /// The registered profiles with the managers of their credentials; none where there is no pool.
    pub fn auth_managers(&self) -> (managers: Vec<ProfileAuthManager>)
        ensures
            managers@ == (match self.pool {
                Some(view) => view.auth_managers@,
                None => Seq::empty(),
            }),
    {
        let mut managers: Vec<ProfileAuthManager> = Vec::new();
        if let Some(view) = &self.pool {
            let mut i: usize = 0;
            while i < view.auth_managers.len()
                invariant
                    i <= view.auth_managers@.len(),
                    managers@ =~= view.auth_managers@.take(i as int),
                decreases view.auth_managers@.len() - i,
            {
                managers.push(
                    ProfileAuthManager {
                        profile_id: view.auth_managers[i].profile_id.clone(),
                        auth_manager: view.auth_managers[i].auth_manager,
                    },
                );
                i = i + 1;
            }
        }
        managers
    }

    pub fn account_pool(&self) -> (pool: Option<&AccountPoolView>)
        ensures
            match pool {
                Some(view) => self.pool == Some(*view),
                None => self.pool is None,
            },
    {
        match &self.pool {
            Some(view) => Some(view),
            None => None,
        }
    }

    /// Number of changes of the active account so far.
    pub fn change_receiver(&self) -> (revision: u64)
        ensures
            revision == self.auth().revision,
    {
        self.inner.revision
    }

    /// The active identity of the pool.
    pub open spec fn spec_active_identity(self) -> Option<ExecutionAccountIdentity> {
        if self.pool is Some && self.pool->0.lease is Ok {
            Some(identity_of(self.pool->0.lease->Ok_0))
        } else {
            None
        }
    }

    /// The active identity of the pool; none for the stock login.
    pub fn active_identity(&self) -> (identity: Option<ExecutionAccountIdentity>)
        ensures
            identity == self.spec_active_identity(),
    {
        match self.inner.active_lease(self.account_pool()) {
            Some(lease) => match lease.account_lease() {
                Some(account) => Some(identity_from_lease(account)),
                None => None,
            },
            None => None,
        }
    }

    /// What an activation comes to. `lease` is what the pool's own activation returned; the handle
    /// shows the pool after its outer manager was reloaded. Success is reported only for a profile
    /// that is still active then; `lost` is the error otherwise.
    pub open spec fn activation_outcome(
        self,
        lease: Result<AccountLease, AccountPoolError>,
        lost: AccountPoolError,
    ) -> Result<ExecutionAccountIdentity, AccountPoolError> {
        if self.pool is None {
            Err(AccountPoolError::NoEligibleAccount)
        } else {
            match lease {
                Err(error) => Err(error),
                Ok(lease) => if self.spec_active_identity() is Some
                    && self.spec_active_identity()->0.profile_id@ == lease.profile_id@ {
                    Ok(self.spec_active_identity()->0)
                } else {
                    Err(lost)
                },
            }
        }
    }

    fn confirm_activation(
        &self,
        lease: Result<AccountLease, AccountPoolError>,
        lost: AccountPoolError,
    ) -> (outcome: Result<ExecutionAccountIdentity, AccountPoolError>)
        ensures
            outcome == self.activation_outcome(lease, lost),
    {
        if self.pool.is_none() {
            return Err(AccountPoolError::NoEligibleAccount);
        }
        let lease = match lease {
            Ok(lease) => lease,
            Err(error) => {
                return Err(error);
            },
        };
        match self.active_identity() {
            Some(actual) => if actual.profile_id == lease.profile_id {
                Ok(actual)
            } else {
                Err(lost)
            },
            None => Err(lost),
        }
    }

    /// Outcome of activating a profile by id.
    pub fn activate(
        &self,
        profile_id: &String,
        lease: Result<AccountLease, AccountPoolError>,
    ) -> (outcome: Result<ExecutionAccountIdentity, AccountPoolError>)
        ensures
            outcome == self.activation_outcome(
                lease,
                AccountPoolError::ProfileUnavailable(*profile_id),
            ),
    {
        self.confirm_activation(lease, AccountPoolError::ProfileUnavailable(profile_id.clone()))
    }

    /// Outcome of activating the preferred account.
    pub fn activate_fill_first(&self, lease: Result<AccountLease, AccountPoolError>) -> (outcome:
        Result<ExecutionAccountIdentity, AccountPoolError>)
        ensures
            outcome == self.activation_outcome(lease, AccountPoolError::NoEligibleAccount),
    {
        self.confirm_activation(lease, AccountPoolError::NoEligibleAccount)
    }

    /// Outcome of activating whatever account the strategy picks.
    pub fn force_activate_automatic(&self, lease: Result<AccountLease, AccountPoolError>) -> (
        outcome: Result<ExecutionAccountIdentity, AccountPoolError>)
        ensures
            outcome == self.activation_outcome(lease, AccountPoolError::NoEligibleAccount),
    {
        self.confirm_activation(lease, AccountPoolError::NoEligibleAccount)
    }

    /// Seconds before the first warmup pass.
    pub fn window_warmup_settle_seconds() -> (seconds: u64)
        ensures
            seconds == 30,
    {
        INITIAL_WARMUP_SETTLE_SECONDS
    }

    pub fn window_warmup_task_running(&self) -> (running: bool)
        ensures
            running == self.auth().window_warmup_task,
    {
        self.inner.window_warmup_task
    }

    /// Asks for one warmup pass as soon as possible.
    pub fn request_window_warmup_pass_now(&mut self)
        ensures
            final(self).auth() == (ExecutionAuth {
                window_warmup_pass_requested: true,
                ..old(self).auth()
            }),
            *final(final(self).inner) == *final(old(self).inner),
            final(self).pool == old(self).pool,
    {
        self.inner.window_warmup_pass_requested = true;
    }
}

/// Success is never reported for a profile that is not the active one.
pub proof fn law_activation_reports_the_active_profile(
    handle: ExecutionAccountPoolHandle,
    lease: Result<AccountLease, AccountPoolError>,
    lost: AccountPoolError,
)
    requires
        handle.activation_outcome(lease, lost) is Ok,
    ensures
        handle.spec_active_identity() == Some(handle.activation_outcome(lease, lost)->Ok_0),
        lease is Ok,
        lease->Ok_0.profile_id@ == handle.activation_outcome(lease, lost)->Ok_0.profile_id@,
{
}

/// An activation succeeds exactly where the pool leased a profile and that profile is active: the
/// identity that is reported is the active one, generation and all. Without a pool nothing is
/// eligible, the pool's own refusal is passed on, and a profile that lost its place is told.
pub proof fn law_activation_succeeds_where_the_profile_is_active(
    handle: ExecutionAccountPoolHandle,
    lease: Result<AccountLease, AccountPoolError>,
    lost: AccountPoolError,
)
    ensures
        ({
            let outcome = handle.activation_outcome(lease, lost);
            let active = handle.pool->0.lease;
            &&& outcome is Ok <==> handle.pool is Some && lease is Ok && active is Ok
                && active->Ok_0.profile_id@ == lease->Ok_0.profile_id@
            &&& outcome is Ok ==> outcome->Ok_0.profile_id == active->Ok_0.profile_id
                && outcome->Ok_0.generation == active->Ok_0.generation
            &&& handle.pool is None ==> outcome->Err_0 is NoEligibleAccount
            &&& handle.pool is Some && lease is Err ==> outcome->Err_0 == lease->Err_0
            &&& handle.pool is Some && lease is Ok && outcome is Err ==> outcome->Err_0 == lost
        }),
{
}

} // verus!
