//! Progress of the sampling attempt that a turn is in.
//!
//! An attempt has several holders: the code that sends the request, and the turn that the response is
//! streamed into. Each holds a handle, and the progress itself stands once, in the turn. So a mark
//! that one holder makes is seen by all.
use vstd::prelude::*;

use crate::execution_provenance::SamplingExecutionProvenance;
use crate::failover_checkpoint::AttemptProgress;
use crate::failover_checkpoint::SamplingAttemptCheckpoint;

verus! {

/// Progress of the attempts of a turn, by their slots. It tracks what can escape to a client before
/// it is durable.
#[derive(Debug, PartialEq, Eq)]
pub struct SamplingAttempts {
    pub checkpoints: Vec<SamplingAttemptCheckpoint>,
}

impl View for SamplingAttempts {
    type V = Seq<SamplingAttemptCheckpoint>;

    open spec fn view(&self) -> Seq<SamplingAttemptCheckpoint> {
        self.checkpoints@
    }
}

/// Handle on the progress of one attempt. A copy of a handle is a handle on the same attempt.
#[derive(Clone, Copy, Debug, PartialEq, Eq, Structural)]
pub struct SamplingAttemptState {
    pub slot: usize,
}

/// The progress of the attempts of a turn after one more step of one of them.
pub open spec fn attempts_after(
    attempts: Seq<SamplingAttemptCheckpoint>,
    attempt: SamplingAttemptState,
    progress: AttemptProgress,
) -> Seq<SamplingAttemptCheckpoint> {
    attempts.update(attempt.slot as int, attempt.progress_in(attempts).after(progress))
}

fn response_started(checkpoint: SamplingAttemptCheckpoint) -> (updated: SamplingAttemptCheckpoint)
    ensures
        updated == checkpoint.after(AttemptProgress::ResponseStarted),
{
    let mut updated = checkpoint;
    updated.mark_response_started();
    updated
}

fn visible_output_emitted(checkpoint: SamplingAttemptCheckpoint) -> (updated:
    SamplingAttemptCheckpoint)
    ensures
        updated == checkpoint.after(AttemptProgress::VisibleOutputEmitted),
{
    let mut updated = checkpoint;
    updated.mark_visible_output_emitted();
    updated
}

impl SamplingAttempts {
    /// A new attempt, without any progress.
    pub fn open(&mut self) -> (attempt: SamplingAttemptState)
        ensures
            attempt.slot == old(self)@.len(),
            final(self)@ == old(self)@.push(SamplingAttemptCheckpoint::untouched()),
    {
        let attempt = SamplingAttemptState { slot: self.checkpoints.len() };
        self.checkpoints.push(SamplingAttemptCheckpoint::default());
        attempt
    }
}

impl SamplingAttemptState {
    /// Whether this is a handle on one of the attempts.
    pub open spec fn is_in(self, attempts: Seq<SamplingAttemptCheckpoint>) -> bool {
        self.slot < attempts.len()
    }

    /// The progress of the attempt.
    pub open spec fn progress_in(
        self,
        attempts: Seq<SamplingAttemptCheckpoint>,
    ) -> SamplingAttemptCheckpoint {
        attempts[self.slot as int]
    }

    pub fn mark_response_started(&self, attempts: &mut SamplingAttempts)
        requires
            self.is_in(old(attempts)@),
        ensures
            final(attempts)@ == attempts_after(
                old(attempts)@,
                *self,
                AttemptProgress::ResponseStarted,
            ),
    {
        self.with_checkpoint(attempts, response_started);
    }

    pub fn mark_visible_output_emitted(&self, attempts: &mut SamplingAttempts)
        requires
            self.is_in(old(attempts)@),
        ensures
            final(attempts)@ == attempts_after(
                old(attempts)@,
                *self,
                AttemptProgress::VisibleOutputEmitted,
            ),
    {
        self.with_checkpoint(attempts, visible_output_emitted);
    }

    pub fn snapshot(&self, attempts: &SamplingAttempts) -> (checkpoint: SamplingAttemptCheckpoint)
        requires
            self.is_in(attempts@),
        ensures
            checkpoint == self.progress_in(attempts@),
    {
        attempts.checkpoints[self.slot]
    }

    /// Replaces the progress of the attempt by what `update` makes of it.
    pub fn with_checkpoint(
        &self,
        attempts: &mut SamplingAttempts,
        update: impl FnOnce(SamplingAttemptCheckpoint) -> SamplingAttemptCheckpoint,
    )
        requires
            self.is_in(old(attempts)@),
            call_requires(update, (self.progress_in(old(attempts)@),)),
        ensures
            call_ensures(
                update,
                (self.progress_in(old(attempts)@),),
                self.progress_in(final(attempts)@),
            ),
            final(attempts)@ == old(attempts)@.update(
                self.slot as int,
                self.progress_in(final(attempts)@),
            ),
    {
        let updated = update(attempts.checkpoints[self.slot]);
        attempts.checkpoints[self.slot] = updated;
    }
}

/// What a turn carries from one request to the next.
#[derive(Debug, PartialEq, Eq)]
pub struct TurnContext {
    /// The attempts of the turn so far.
    pub attempts: SamplingAttempts,
    /// The attempt that the turn is in.
    pub sampling_attempt: Option<SamplingAttemptState>,
    pub execution_provenance: Option<SamplingExecutionProvenance>,
}

impl Default for TurnContext {
    fn default() -> (turn_context: Self)
        ensures
            turn_context.wf(),
            turn_context.attempts@.len() == 0,
            turn_context.sampling_attempt is None,
            turn_context.execution_provenance is None,
    {
        TurnContext {
            attempts: SamplingAttempts { checkpoints: Vec::new() },
            sampling_attempt: None,
            execution_provenance: None,
        }
    }
}

impl TurnContext {
    /// The attempt that the turn is in is one of its attempts.
    pub open spec fn wf(self) -> bool {
        self.sampling_attempt matches Some(attempt) ==> attempt.is_in(self.attempts@)
    }
}

/// Whether a turn is the same but for a new attempt, which is then the one that it is in.
pub open spec fn is_turn_with_new_attempt(
    before: TurnContext,
    after: TurnContext,
    attempt: SamplingAttemptState,
) -> bool {
    &&& attempt.slot == before.attempts@.len()
    &&& after.attempts@ == before.attempts@.push(SamplingAttemptCheckpoint::untouched())
    &&& after.sampling_attempt == Some(attempt)
    &&& after.execution_provenance == before.execution_provenance
}

/// Replaces the attempt of a turn immediately before a concrete model request. The result and what
/// [`sampling_attempt`] then gives are handles on one attempt.
pub fn install_sampling_attempt(turn_context: &mut TurnContext) -> (attempt: SamplingAttemptState)
    ensures
        is_turn_with_new_attempt(*old(turn_context), *final(turn_context), attempt),
        final(turn_context).wf(),
{
    let attempt = turn_context.attempts.open();
    turn_context.sampling_attempt = Some(attempt);
    attempt
}

pub fn sampling_attempt(turn_context: &TurnContext) -> (attempt: Option<SamplingAttemptState>)
    ensures
        attempt == turn_context.sampling_attempt,
{
    turn_context.sampling_attempt
}

/// Whether a turn is the same but for one more step of progress of its attempt; a turn without an
/// attempt stays as it is.
pub open spec fn is_turn_after(
    before: TurnContext,
    after: TurnContext,
    progress: AttemptProgress,
) -> bool {
    &&& after.attempts@ == (match before.sampling_attempt {
        Some(attempt) => attempts_after(before.attempts@, attempt, progress),
        None => before.attempts@,
    })
    &&& after.sampling_attempt == before.sampling_attempt
    &&& after.execution_provenance == before.execution_provenance
}

pub fn mark_sampling_response_started(turn_context: &mut TurnContext)
    requires
        old(turn_context).wf(),
    ensures
        is_turn_after(
            *old(turn_context),
            *final(turn_context),
            AttemptProgress::ResponseStarted,
        ),
        final(turn_context).wf(),
{
    if let Some(attempt) = sampling_attempt(turn_context) {
        attempt.mark_response_started(&mut turn_context.attempts);
    }
}

pub fn mark_sampling_visible_output(turn_context: &mut TurnContext)
    requires
        old(turn_context).wf(),
    ensures
        is_turn_after(
            *old(turn_context),
            *final(turn_context),
            AttemptProgress::VisibleOutputEmitted,
        ),
        final(turn_context).wf(),
{
    if let Some(attempt) = sampling_attempt(turn_context) {
        attempt.mark_visible_output_emitted(&mut turn_context.attempts);
    }
}

/// A mark through one handle shows in the snapshot through every handle on the same attempt, and in
/// that of no other attempt. No handle is lost over it.
pub proof fn law_marks_are_shared(
    attempts: Seq<SamplingAttemptCheckpoint>,
    marked: SamplingAttemptState,
    other: SamplingAttemptState,
    progress: AttemptProgress,
)
    requires
        marked.is_in(attempts),
        other.is_in(attempts),
    ensures
        other.is_in(attempts_after(attempts, marked, progress)),
        other.progress_in(attempts_after(attempts, marked, progress)) == (if other == marked {
            marked.progress_in(attempts).after(progress)
        } else {
            other.progress_in(attempts)
        }),
{
}

/// A new attempt of a turn starts without progress and leaves what is known of every earlier one as
/// it is. A mark on an earlier attempt does not reach it, and a mark on the attempt that the turn is
/// in shows through the handle that the installation returned.
pub proof fn law_new_attempt_is_separate(
    before: TurnContext,
    after: TurnContext,
    attempt: SamplingAttemptState,
    earlier: SamplingAttemptState,
    marked: TurnContext,
    progress: AttemptProgress,
)
    requires
        is_turn_with_new_attempt(before, after, attempt),
        earlier.is_in(before.attempts@),
        is_turn_after(after, marked, progress),
    ensures
        attempt.progress_in(after.attempts@) == SamplingAttemptCheckpoint::untouched(),
        earlier.progress_in(after.attempts@) == earlier.progress_in(before.attempts@),
        attempt.progress_in(attempts_after(after.attempts@, earlier, progress))
            == SamplingAttemptCheckpoint::untouched(),
        attempt.progress_in(marked.attempts@)
            == SamplingAttemptCheckpoint::untouched().after(progress),
        earlier.progress_in(marked.attempts@) == earlier.progress_in(before.attempts@),
{
}

} // verus!
