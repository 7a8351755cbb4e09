//! Authentication captured for one model request.
use vstd::prelude::*;

verus! {

/// Immutable authentication source captured for one concrete model request.
#[derive(Clone, Debug, PartialEq, Eq)]
pub struct ExecutionRequestAuth {
    profile_id: Option<String>,
    generation: u64,
    auth_manager: u64,
}

/// The account and generation that a request runs under.
#[derive(Clone, Debug, PartialEq, Eq)]
pub struct ExecutionRequestIdentity {
    pub profile_id: Option<String>,
    pub generation: u64,
}

impl ExecutionRequestAuth {
    pub closed spec fn spec_identity(self) -> ExecutionRequestIdentity {
        ExecutionRequestIdentity { profile_id: self.profile_id, generation: self.generation }
    }

    pub closed spec fn spec_auth_manager(self) -> u64 {
        self.auth_manager
    }

    pub fn new(profile_id: Option<String>, generation: u64, auth_manager: u64) -> (auth: Self)
        ensures
            auth.spec_identity() == (ExecutionRequestIdentity { profile_id, generation }),
            auth.spec_auth_manager() == auth_manager,
    {
        ExecutionRequestAuth { profile_id, generation, auth_manager }
    }

    /// Key of the authentication manager that the request is bound to.
    pub fn auth_manager(&self) -> (manager: u64)
        ensures
            manager == self.spec_auth_manager(),
    {
        self.auth_manager
    }

    pub fn identity(&self) -> (identity: ExecutionRequestIdentity)
        ensures
            identity == self.spec_identity(),
    {
        let profile_id = match &self.profile_id {
            Some(id) => Some(id.clone()),
            None => None,
        };
        ExecutionRequestIdentity { profile_id, generation: self.generation }
    }
}

} // verus!
