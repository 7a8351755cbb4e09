//! Model clients that are bound to one execution identity.
//!
//! A session stays the same while the client under it is replaced after a switch of accounts. Clients
//! and transport sessions are known by the keys that the host gives them.
use vstd::prelude::*;

use crate::execution_auth::ExecutionAuthLease;

verus! {

/// A client and the lease that it was built for.
#[derive(Debug, PartialEq, Eq)]
pub struct AccountBoundModelClient {
    pub lease: ExecutionAuthLease,
    pub client: u64,
}

/// Owner of the client of a session. Whatever shares the session shares this one cache.
#[derive(Debug, PartialEq, Eq)]
pub struct ExecutionModelClient {
    pub cached: Option<AccountBoundModelClient>,
}

/// Turn-scoped transport session, paired with the lease that created it.
#[derive(Debug, PartialEq, Eq)]
pub struct ExecutionModelClientSession {
    pub lease: ExecutionAuthLease,
    pub inner: u64,
}

/// No account of the pool can be scheduled.
#[derive(Clone, Copy, Debug, PartialEq, Eq, Structural)]
pub struct NoSchedulableAccount;

impl NoSchedulableAccount {
    pub fn message(&self) -> (message: String)
        ensures
            message@ == "no schedulable Codex execution account is available"@,
    {
        "no schedulable Codex execution account is available".to_owned()
    }
}

impl ExecutionModelClient {
    pub fn new() -> (owner: Self)
        ensures
            owner.cached is None,
    {
        ExecutionModelClient { cached: None }
    }

    /// The client that is cached for the identity of a lease.
    pub open spec fn client_of(self, lease: ExecutionAuthLease) -> Option<u64> {
        if self.cached is Some && self.cached->0.lease.same_identity(lease) {
            Some(self.cached->0.client)
        } else {
            None
        }
    }

    /// The client for a lease, where the cached one was built for the same identity. Otherwise the
    /// host builds one and hands it to [`Self::store_client`].
    pub fn client_for_lease(&self, lease: &ExecutionAuthLease) -> (client: Option<u64>)
        ensures
            client == self.client_of(*lease),
    {
        match &self.cached {
            Some(bound) => if bound.lease.is_same_execution_identity(lease) {
                Some(bound.client)
            } else {
                None
            },
            None => None,
        }
    }

    /// Caches a client that was built for a lease, in place of any other.
    pub fn store_client(&mut self, lease: &ExecutionAuthLease, client: u64)
        ensures
            final(self).cached == Some(AccountBoundModelClient { lease: *lease, client }),
    {
        self.cached = Some(AccountBoundModelClient { lease: lease.copy(), client });
    }

    /// The active identity with its cached client, or the error where there is none.
    pub open spec fn binding_of(self, active: Option<ExecutionAuthLease>) -> Result<
        (ExecutionAuthLease, Option<u64>),
        NoSchedulableAccount,
    > {
        match active {
            Some(lease) => Ok((lease, self.client_of(lease))),
            None => Err(NoSchedulableAccount),
        }
    }

    /// Pins the active identity for a client or a session that is to be used on it, with the cached
    /// client of that identity, if any. It is an error where no account can be scheduled.
    pub fn bind_active_client(&self, active: Option<ExecutionAuthLease>) -> (bound: Result<
        (ExecutionAuthLease, Option<u64>),
        NoSchedulableAccount,
    >)
        ensures
            bound == self.binding_of(active),
    {
        match active {
            Some(lease) => {
                let client = self.client_for_lease(&lease);
                Ok((lease, client))
            },
            None => Err(NoSchedulableAccount),
        }
    }

    /// The manager that the active identity authenticates through.
    pub fn auth_manager(active: Option<&ExecutionAuthLease>) -> (manager: Option<u64>)
        ensures
            manager == (match active {
                Some(lease) => Some(lease.manager()),
                None => None,
            }),
    {
        match active {
            Some(lease) => Some(lease.auth_manager()),
            None => None,
        }
    }
}

impl ExecutionModelClientSession {
    pub fn new(lease: ExecutionAuthLease, inner: u64) -> (session: Self)
        ensures
            session.lease == lease,
            session.inner == inner,
    {
        ExecutionModelClientSession { lease, inner }
    }

    pub fn execution_lease(&self) -> (lease: &ExecutionAuthLease)
        ensures
            *lease == self.lease,
    {
        &self.lease
    }

    /// Whether a session has to be rebound to run on a lease.
    pub fn needs_rebind(&self, lease: &ExecutionAuthLease) -> (needed: bool)
        ensures
            needed == !self.lease.same_identity(*lease),
    {
        !self.lease.is_same_execution_identity(lease)
    }

    /// The lease that a session has to be rebound to, if any, or the error where there is none.
    pub open spec fn rebind_target(self, active: Option<ExecutionAuthLease>) -> Result<
        Option<ExecutionAuthLease>,
        NoSchedulableAccount,
    > {
        match active {
            None => Err(NoSchedulableAccount),
            Some(lease) => if self.lease.same_identity(lease) {
                Ok(None)
            } else {
                Ok(Some(lease))
            },
        }
    }

    /// The session after it was rebound to a lease.
    pub open spec fn rebound(self, lease: ExecutionAuthLease, fresh_inner: u64) -> Self {
        if self.lease.same_identity(lease) {
            self
        } else {
            ExecutionModelClientSession { lease, inner: fresh_inner }
        }
    }

    /// The lease that a session has to be rebound to before its first request: the active one,
    /// where another worker switched accounts since the session was made. It is an error where no
    /// account can be scheduled.
    pub fn rebind_session_to_active(&self, active: Option<ExecutionAuthLease>) -> (target: Result<
        Option<ExecutionAuthLease>,
        NoSchedulableAccount,
    >)
        ensures
            target == self.rebind_target(active),
    {
        match active {
            None => Err(NoSchedulableAccount),
            Some(lease) => if self.lease.is_same_execution_identity(&lease) {
                Ok(None)
            } else {
                Ok(Some(lease))
            },
        }
    }

    /// Rebinds a session to another identity with a transport session of its own: nothing of the
    /// old account's transport crosses over. A session of the same identity stays as it is.
    pub fn rebind_session(&mut self, lease: ExecutionAuthLease, fresh_inner: u64)
        ensures
            *final(self) == old(self).rebound(lease, fresh_inner),
    {
        if !self.lease.is_same_execution_identity(&lease) {
            self.inner = fresh_inner;
            self.lease = lease;
        }
    }
}

/// A client is never used for another identity than the one that it was built for: once it is
/// stored, a lease gets it if and only if it runs on the same account, in the same generation and
/// through the same manager.
pub proof fn law_cached_client_keeps_its_identity(
    owner: ExecutionModelClient,
    stored: ExecutionAuthLease,
    client: u64,
    lease: ExecutionAuthLease,
)
    requires
        owner.cached == Some(AccountBoundModelClient { lease: stored, client }),
    ensures
        owner.client_of(lease) == (if stored.same_identity(lease) {
            Some(client)
        } else {
            None
        }),
        owner.client_of(stored) == Some(client),
        owner.client_of(lease) is Some ==> lease.manager() == stored.manager()
            && lease.spec_generation() == stored.spec_generation(),
{
}

/// A session goes on with its transport exactly while its identity stays: it is rebound where the
/// active identity is another, then with a transport of its own, and needs an account in any case.
pub proof fn law_session_never_crosses_identities(
    session: ExecutionModelClientSession,
    owner: ExecutionModelClient,
    active: Option<ExecutionAuthLease>,
    fresh_inner: u64,
)
    ensures
        session.rebind_target(active) is Err <==> active is None,
        owner.binding_of(active) is Err <==> active is None,
        active matches Some(lease) ==> {
            let rebound = session.rebound(lease, fresh_inner);
            let (bound, client) = owner.binding_of(active)->Ok_0;
            &&& rebound.lease.same_identity(lease)
            &&& rebound.inner == fresh_inner || (rebound == session && session.lease.same_identity(
                lease,
            ))
            &&& session.lease.same_identity(lease) ==> session.rebind_target(active) == Ok::<
                _,
                NoSchedulableAccount,
            >(None::<ExecutionAuthLease>) && rebound == session
            &&& !session.lease.same_identity(lease) ==> session.rebind_target(active) == Ok::<
                _,
                NoSchedulableAccount,
            >(Some(lease)) && rebound.lease == lease
            &&& bound == lease
            &&& client is Some ==> owner.cached is Some
                && owner.cached->0.lease.manager() == lease.manager()
                && owner.cached->0.lease.spec_generation() == lease.spec_generation()
        },
{
}

} // verus!
