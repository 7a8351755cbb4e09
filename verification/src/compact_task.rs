//! The manual compaction task: which compaction runs, and what its failure comes to.
use vstd::prelude::*;

use crate::failover::CodexErrorDetails;
use crate::portable_compaction::PortableCompactionPolicy;

verus! {

/// Remote compaction that a provider offers.
#[derive(Clone, Copy, Debug, PartialEq, Eq, Structural)]
pub enum RemoteCompactionSupport {
    V2,
    Unsupported,
}

/// The compaction that runs.
#[derive(Clone, Copy, Debug, PartialEq, Eq, Structural)]
pub enum CompactRoute {
    /// Compaction by token budget, which no pool takes part in.
    TokenBudget,
    /// Local compaction, whose summary every account can read.
    LocalMultiAccount,
    RemoteV2,
    Remote,
    Local,
}

/// How a compaction task ends.
#[derive(Clone, Debug, PartialEq, Eq)]
pub enum CompactEnd {
    /// The task is over, with nothing to report.
    Done,
    /// The task fails with this error.
    Fail(CodexErrorDetails),
    /// The task is over, and the error is reported to the client.
    Report(CodexErrorDetails),
}

#[derive(Clone, Copy, Debug, PartialEq, Eq, Structural)]
pub struct CompactTask;

impl CompactTask {
    pub fn span_name(&self) -> (name: &'static str)
        ensures
            name@ == "session_task.compact"@,
    {
        "session_task.compact"
    }

    /// Which compaction runs. A token budget comes first. Portable history is always compacted
    /// locally; otherwise the provider's remote compaction is used where it has one.
    pub open spec fn spec_route(
        token_budget_enabled: bool,
        policy: PortableCompactionPolicy,
        remote: RemoteCompactionSupport,
        remote_v2_enabled: bool,
    ) -> CompactRoute {
        if token_budget_enabled {
            CompactRoute::TokenBudget
        } else if policy == PortableCompactionPolicy::Portable {
            CompactRoute::LocalMultiAccount
        } else if remote == RemoteCompactionSupport::Unsupported {
            CompactRoute::Local
        } else if remote_v2_enabled {
            CompactRoute::RemoteV2
        } else {
            CompactRoute::Remote
        }
    }

    pub fn route(
        token_budget_enabled: bool,
        policy: PortableCompactionPolicy,
        remote: RemoteCompactionSupport,
        remote_v2_enabled: bool,
    ) -> (route: CompactRoute)
        ensures
            route == Self::spec_route(token_budget_enabled, policy, remote, remote_v2_enabled),
    {
        if token_budget_enabled {
            return CompactRoute::TokenBudget;
        }
        match policy {
            PortableCompactionPolicy::Portable => CompactRoute::LocalMultiAccount,
            PortableCompactionPolicy::Stock => match remote {
                RemoteCompactionSupport::V2 => if remote_v2_enabled {
                    CompactRoute::RemoteV2
                } else {
                    CompactRoute::Remote
                },
                RemoteCompactionSupport::Unsupported => CompactRoute::Local,
            },
        }
    }

    /// Name under which the compaction is counted; a token budget has its own count.
    pub fn metric(route: CompactRoute) -> (name: Option<&'static str>)
        ensures
            match route {
                CompactRoute::TokenBudget => name is None,
                CompactRoute::LocalMultiAccount => name is Some && name->0@
                    == "local_multi_account"@,
                CompactRoute::RemoteV2 => name is Some && name->0@ == "remote_v2"@,
                CompactRoute::Remote => name is Some && name->0@ == "remote"@,
                CompactRoute::Local => name is Some && name->0@ == "local"@,
            },
    {
        match route {
            CompactRoute::TokenBudget => None,
            CompactRoute::LocalMultiAccount => Some("local_multi_account"),
            CompactRoute::RemoteV2 => Some("remote_v2"),
            CompactRoute::Remote => Some("remote"),
            CompactRoute::Local => Some("local"),
        }
    }

    /// Error of a task whose pool could not be initialized.
    pub fn pool_initialization_error(error: &String) -> (details: CodexErrorDetails)
        ensures
            details matches CodexErrorDetails::UnsupportedOperation(message) && message@
                == "failed to initialize native multi-account execution for compaction: "@ + error@,
    {
        let mut message =
            "failed to initialize native multi-account execution for compaction: ".to_owned();
        message.append(error.as_str());
        CodexErrorDetails::UnsupportedOperation(message)
    }

    /// How the task ends. An aborted turn fails the task. A portable compaction that is not
    /// possible, such as one on the wrong account, is reported. Any other failure was reported by
    /// the compaction itself.
    pub open spec fn spec_end(
        policy: PortableCompactionPolicy,
        result: Result<(), CodexErrorDetails>,
    ) -> CompactEnd {
        match result {
            Ok(_) => CompactEnd::Done,
            Err(error) => if error is TurnAborted {
                CompactEnd::Fail(error)
            } else if policy == PortableCompactionPolicy::Portable && error
                is UnsupportedOperation {
                CompactEnd::Report(error)
            } else {
                CompactEnd::Done
            },
        }
    }

    pub fn end(policy: PortableCompactionPolicy, result: Result<(), CodexErrorDetails>) -> (end:
        CompactEnd)
        ensures
            end == Self::spec_end(policy, result),
    {
        match result {
            Ok(()) => CompactEnd::Done,
            Err(error) => {
                let aborted = match &error {
                    CodexErrorDetails::TurnAborted => true,
                    _ => false,
                };
                let unsupported = match &error {
                    CodexErrorDetails::UnsupportedOperation(_) => true,
                    _ => false,
                };
                let portable = match policy {
                    PortableCompactionPolicy::Portable => true,
                    PortableCompactionPolicy::Stock => false,
                };
                if aborted {
                    CompactEnd::Fail(error)
                } else if portable && unsupported {
                    CompactEnd::Report(error)
                } else {
                    CompactEnd::Done
                }
            },
        }
    }

    /// The prompt of a local compaction: the configured one, or the default.
    pub fn local_prompt(configured: &Option<String>, default_prompt: &str) -> (prompt: String)
        ensures
            prompt@ == crate::text::text_or(*configured, default_prompt@),
    {
        match configured {
            Some(prompt) => prompt.clone(),
            None => default_prompt.to_owned(),
        }
    }
}

/// Portable history never goes to remote compaction, whose result only one account can read.
pub proof fn law_portable_history_is_compacted_locally(
    remote: RemoteCompactionSupport,
    remote_v2_enabled: bool,
)
    ensures
        CompactTask::spec_route(
            false,
            PortableCompactionPolicy::Portable,
            remote,
            remote_v2_enabled,
        ) == CompactRoute::LocalMultiAccount,
{
}

/// A token budget goes before all else. Remote compaction is used exactly where history need not be
/// portable and the provider has it, in its second version exactly where that is enabled.
pub proof fn law_remote_compaction_is_used_where_it_can_be(
    token_budget_enabled: bool,
    policy: PortableCompactionPolicy,
    remote: RemoteCompactionSupport,
    remote_v2_enabled: bool,
)
    ensures
        ({
            let route = CompactTask::spec_route(
                token_budget_enabled,
                policy,
                remote,
                remote_v2_enabled,
            );
            &&& route is TokenBudget <==> token_budget_enabled
            &&& route is LocalMultiAccount <==> !token_budget_enabled && policy is Portable
            &&& route is Remote || route is RemoteV2 <==> !token_budget_enabled && policy is Stock
                && remote is V2
            &&& route is RemoteV2 ==> remote_v2_enabled
            &&& route is Remote ==> !remote_v2_enabled
        }),
{
}

/// An aborted turn always fails the task, and nothing else does. A client hears of an impossible
/// compaction, in the compaction's own words, exactly where history had to be portable.
pub proof fn law_only_aborted_turns_fail_the_task(
    policy: PortableCompactionPolicy,
    result: Result<(), CodexErrorDetails>,
)
    ensures
        ({
            let end = CompactTask::spec_end(policy, result);
            &&& end is Fail <==> result is Err && result->Err_0 is TurnAborted
            &&& end is Report <==> result is Err && result->Err_0 is UnsupportedOperation
                && policy is Portable
            &&& end matches CompactEnd::Fail(error) ==> result == Err::<(), _>(error)
            &&& end matches CompactEnd::Report(error) ==> result == Err::<(), _>(error)
        }),
{
}

} // verus!
