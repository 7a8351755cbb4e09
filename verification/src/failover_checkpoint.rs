//! Progress of one model sampling attempt, and how it may be retried on another account.
use vstd::prelude::*;

verus! {

/// Progress made by one concrete model sampling attempt.
///
/// Account failover uses it to avoid replaying a tool call that may already have had an effect.
#[derive(Clone, Copy, Debug, PartialEq, Eq, Structural)]
pub struct SamplingAttemptCheckpoint {
    pub response_started: bool,
    pub visible_output_emitted: bool,
    pub completed_output_persisted: bool,
    pub tool_call_persisted: bool,
    pub tool_result_committed: bool,
    pub tool_reconciliation_failed: bool,
}

impl Default for SamplingAttemptCheckpoint {
    fn default() -> (checkpoint: Self)
        ensures
            checkpoint == SamplingAttemptCheckpoint::untouched(),
    {
        SamplingAttemptCheckpoint {
            response_started: false,
            visible_output_emitted: false,
            completed_output_persisted: false,
            tool_call_persisted: false,
            tool_result_committed: false,
            tool_reconciliation_failed: false,
        }
    }
}

/// How a failed attempt may go on.
#[derive(Clone, Copy, Debug, PartialEq, Eq, Structural)]
pub enum FailoverRetryMode {
    /// Nothing observable escaped the failed request; submit the same prompt on the new account.
    ReplayCurrentSamplingRequest,
    /// Partial output was shown but nothing durable exists. The partial item has to be abandoned
    /// before the same request is replayed.
    ReplayAfterAbandoningPartialOutput,
    /// A completed item or a tool call is already in local history. Rebuild the prompt from history;
    /// never replay the old request's tool call.
    ContinueFromDurableHistory,
    /// A tool may have had a side effect without a durable result. Neither replay nor continue
    /// automatically.
    ReconcileCurrentAttempt,
}

/// One step of progress of an attempt.
#[derive(Clone, Copy, Debug, PartialEq, Eq, Structural)]
pub enum AttemptProgress {
    ResponseStarted,
    VisibleOutputEmitted,
    CompletedOutputPersisted,
    ToolCallPersisted,
    ToolResultCommitted,
    ToolReconciliationFailed,
}

impl SamplingAttemptCheckpoint {
    /// An attempt of which nothing has been seen yet.
    pub open spec fn untouched() -> Self {
        SamplingAttemptCheckpoint {
            response_started: false,
            visible_output_emitted: false,
            completed_output_persisted: false,
            tool_call_persisted: false,
            tool_result_committed: false,
            tool_reconciliation_failed: false,
        }
    }

    /// The checkpoint after one more step of progress. Every step means that a response started, a
    /// persisted tool call is a persisted output, and every tool step means that there was a call.
    pub open spec fn after(self, progress: AttemptProgress) -> Self {
        match progress {
            AttemptProgress::ResponseStarted => SamplingAttemptCheckpoint {
                response_started: true,
                ..self
            },
            AttemptProgress::VisibleOutputEmitted => SamplingAttemptCheckpoint {
                response_started: true,
                visible_output_emitted: true,
                ..self
            },
            AttemptProgress::CompletedOutputPersisted => SamplingAttemptCheckpoint {
                response_started: true,
                completed_output_persisted: true,
                ..self
            },
            AttemptProgress::ToolCallPersisted => SamplingAttemptCheckpoint {
                response_started: true,
                completed_output_persisted: true,
                tool_call_persisted: true,
                ..self
            },
            AttemptProgress::ToolResultCommitted => SamplingAttemptCheckpoint {
                response_started: true,
                tool_call_persisted: true,
                tool_result_committed: true,
                ..self
            },
            AttemptProgress::ToolReconciliationFailed => SamplingAttemptCheckpoint {
                response_started: true,
                tool_call_persisted: true,
                tool_reconciliation_failed: true,
                ..self
            },
        }
    }

    /// How the attempt may go on: the most cautious mode that its progress calls for.
    pub open spec fn mode(self) -> FailoverRetryMode {
        if self.tool_reconciliation_failed {
            FailoverRetryMode::ReconcileCurrentAttempt
        } else if self.tool_call_persisted || self.tool_result_committed
            || self.completed_output_persisted {
            FailoverRetryMode::ContinueFromDurableHistory
        } else if self.visible_output_emitted {
            FailoverRetryMode::ReplayAfterAbandoningPartialOutput
        } else {
            FailoverRetryMode::ReplayCurrentSamplingRequest
        }
    }

    pub fn mark_response_started(&mut self)
        ensures
            *final(self) == old(self).after(AttemptProgress::ResponseStarted),
    {
        self.response_started = true;
    }

    pub fn mark_visible_output_emitted(&mut self)
        ensures
            *final(self) == old(self).after(AttemptProgress::VisibleOutputEmitted),
    {
        self.response_started = true;
        self.visible_output_emitted = true;
    }

    /// Called after a completed response item has been persisted to local conversation history.
    pub fn mark_completed_output_persisted(&mut self)
        ensures
            *final(self) == old(self).after(AttemptProgress::CompletedOutputPersisted),
    {
        self.response_started = true;
        self.completed_output_persisted = true;
    }

    /// Called only after the model's tool-call item itself is durable.
    pub fn mark_tool_call_persisted(&mut self)
        ensures
            *final(self) == old(self).after(AttemptProgress::ToolCallPersisted),
    {
        self.response_started = true;
        self.completed_output_persisted = true;
        self.tool_call_persisted = true;
    }

    /// Called after the matching tool output is written to conversation history.
    pub fn mark_tool_result_committed(&mut self)
        ensures
            *final(self) == old(self).after(AttemptProgress::ToolResultCommitted),
    {
        self.response_started = true;
        self.tool_call_persisted = true;
        self.tool_result_committed = true;
    }

    /// A tool failed without a durable output. Its side effect may still have happened.
    pub fn mark_tool_reconciliation_failed(&mut self)
        ensures
            *final(self) == old(self).after(AttemptProgress::ToolReconciliationFailed),
    {
        self.response_started = true;
        self.tool_call_persisted = true;
        self.tool_reconciliation_failed = true;
    }

    pub fn retry_mode(&self) -> (mode: FailoverRetryMode)
        ensures
            mode == self.mode(),
    {
        if self.tool_reconciliation_failed {
            return FailoverRetryMode::ReconcileCurrentAttempt;
        }
        if self.tool_call_persisted || self.tool_result_committed
            || self.completed_output_persisted {
            return FailoverRetryMode::ContinueFromDurableHistory;
        }
        if self.visible_output_emitted {
            return FailoverRetryMode::ReplayAfterAbandoningPartialOutput;
        }
        // Receiving a response envelope alone has no semantic or user-visible side effect.
        FailoverRetryMode::ReplayCurrentSamplingRequest
    }
}

/// How cautious a mode is.
pub open spec fn caution(mode: FailoverRetryMode) -> int {
    match mode {
        FailoverRetryMode::ReplayCurrentSamplingRequest => 0,
        FailoverRetryMode::ReplayAfterAbandoningPartialOutput => 1,
        FailoverRetryMode::ContinueFromDurableHistory => 2,
        FailoverRetryMode::ReconcileCurrentAttempt => 3,
    }
}

/// The checkpoint after a series of steps.
pub open spec fn after_all(
    checkpoint: SamplingAttemptCheckpoint,
    steps: Seq<AttemptProgress>,
) -> SamplingAttemptCheckpoint
    decreases steps.len(),
{
    if steps.len() == 0 {
        checkpoint
    } else {
        after_all(checkpoint, steps.drop_last()).after(steps.last())
    }
}

/// Progress never makes a retry less cautious.
pub proof fn law_progress_never_relaxes_the_retry(
    checkpoint: SamplingAttemptCheckpoint,
    steps: Seq<AttemptProgress>,
)
    ensures
        caution(after_all(checkpoint, steps).mode()) >= caution(checkpoint.mode()),
    decreases steps.len(),
{
    if steps.len() > 0 {
        law_progress_never_relaxes_the_retry(checkpoint, steps.drop_last());
    }
}

/// A request is never replayed once a tool was called: whatever came before or after, the attempt
/// continues from history or has to be reconciled. Where a tool's result was lost, it has to be
/// reconciled.
pub proof fn law_tool_calls_are_never_replayed(
    checkpoint: SamplingAttemptCheckpoint,
    steps: Seq<AttemptProgress>,
    i: int,
)
    requires
        0 <= i < steps.len(),
        steps[i] == AttemptProgress::ToolCallPersisted || steps[i]
            == AttemptProgress::ToolResultCommitted || steps[i]
            == AttemptProgress::ToolReconciliationFailed,
    ensures
        caution(after_all(checkpoint, steps).mode()) >= caution(
            FailoverRetryMode::ContinueFromDurableHistory,
        ),
        steps[i] == AttemptProgress::ToolReconciliationFailed ==> after_all(
            checkpoint,
            steps,
        ).mode() == FailoverRetryMode::ReconcileCurrentAttempt,
    decreases steps.len(),
{
    if i < steps.len() - 1 {
        law_tool_calls_are_never_replayed(checkpoint, steps.drop_last(), i);
    }
}

/// The order in which progress is noted does not matter.
pub proof fn law_progress_commutes(
    checkpoint: SamplingAttemptCheckpoint,
    first: AttemptProgress,
    second: AttemptProgress,
)
    ensures
        checkpoint.after(first).after(second) == checkpoint.after(second).after(first),
        checkpoint.after(first).after(first) == checkpoint.after(first),
{
}

/// Whether an attempt started, showed output, left an item or a tool call behind, got a tool's result,
/// or lost one, is told by the steps that it went through, and by nothing else.
pub proof fn law_checkpoint_tells_what_happened(steps: Seq<AttemptProgress>)
    ensures
        ({
            let reached = after_all(SamplingAttemptCheckpoint::untouched(), steps);
            let tool = steps.contains(AttemptProgress::ToolCallPersisted) || steps.contains(
                AttemptProgress::ToolResultCommitted,
            ) || steps.contains(AttemptProgress::ToolReconciliationFailed);
            &&& reached.response_started <==> steps.len() > 0
            &&& reached.visible_output_emitted <==> steps.contains(
                AttemptProgress::VisibleOutputEmitted,
            )
            &&& reached.completed_output_persisted <==> steps.contains(
                AttemptProgress::CompletedOutputPersisted,
            ) || steps.contains(AttemptProgress::ToolCallPersisted)
            &&& reached.tool_call_persisted <==> tool
            &&& reached.tool_result_committed <==> steps.contains(
                AttemptProgress::ToolResultCommitted,
            )
            &&& reached.tool_reconciliation_failed <==> steps.contains(
                AttemptProgress::ToolReconciliationFailed,
            )
        }),
    decreases steps.len(),
{
    if steps.len() > 0 {
        let rest = steps.drop_last();
        law_checkpoint_tells_what_happened(rest);
        assert forall|step: AttemptProgress| #[trigger] steps.contains(step) <==> rest.contains(
            step,
        ) || step == steps.last() by {
            if rest.contains(step) {
                let k = choose|k: int| 0 <= k < rest.len() && rest[k] == step;
                assert(steps[k] == step);
            }
            if steps.contains(step) && step != steps.last() {
                let k = choose|k: int| 0 <= k < steps.len() && steps[k] == step;
                assert(rest[k] == step);
            }
            if step == steps.last() {
                assert(steps[steps.len() - 1] == step);
            }
        }
    }
}

/// An attempt may be replayed as it is exactly where nothing came of it but the start of a response;
/// it continues from history exactly where something durable came of it and no tool was lost.
pub proof fn law_mode_follows_from_the_steps(steps: Seq<AttemptProgress>)
    ensures
        ({
            let mode = after_all(SamplingAttemptCheckpoint::untouched(), steps).mode();
            let lost = steps.contains(AttemptProgress::ToolReconciliationFailed);
            let shown = steps.contains(AttemptProgress::VisibleOutputEmitted);
            let durable = steps.contains(AttemptProgress::CompletedOutputPersisted)
                || steps.contains(AttemptProgress::ToolCallPersisted) || steps.contains(
                AttemptProgress::ToolResultCommitted,
            );
            &&& mode == FailoverRetryMode::ReconcileCurrentAttempt <==> lost
            &&& mode == FailoverRetryMode::ContinueFromDurableHistory <==> !lost && durable
            &&& mode == FailoverRetryMode::ReplayAfterAbandoningPartialOutput <==> !lost && !durable
                && shown
            &&& mode == FailoverRetryMode::ReplayCurrentSamplingRequest <==> !lost && !durable
                && !shown
        }),
{
    law_checkpoint_tells_what_happened(steps);
}

} // verus!
