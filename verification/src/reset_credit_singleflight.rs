//! Single-flight coordination of automatic reset-credit redemption.
//!
//! Generations of the pool only grow. The latest finished generation closes retries for the same
//! failure, while a later generation can start one new attempt. So the generation of its failure
//! tells an attempt from every other.
use vstd::prelude::*;

verus! {

#[derive(Clone, Copy, Debug, PartialEq, Eq, Structural)]
pub enum ResetCreditRescueAttemptStatus {
    Pending,
    Finished,
}

/// The failure that an attempt is made for.
#[derive(Clone, Debug, PartialEq, Eq)]
pub struct ResetCreditRescueAttemptKey {
    pub profile_id: String,
    pub generation: u64,
}

#[derive(Clone, Debug, PartialEq, Eq)]
pub struct ResetCreditRescueAttemptState {
    pub key: ResetCreditRescueAttemptKey,
    pub status: ResetCreditRescueAttemptStatus,
}

/// The part of one caller in an attempt.
#[derive(Debug, PartialEq, Eq)]
pub enum ResetCreditRescueAttempt {
    /// This caller redeems, under its own request id, and has to call
    /// [`ResetCreditRescueSingleflight::finish`] whatever happens.
    Leader(ResetCreditRescueLeader),
    /// Another caller is redeeming: wait until that attempt is finished.
    Follower(ResetCreditRescueFollower),
    /// The failure was dealt with already.
    AlreadyFinished,
}

/// The right to redeem, and to end the attempt that it was given out for.
#[derive(Debug, PartialEq, Eq)]
pub struct ResetCreditRescueLeader {
    redeem_request_id: String,
    generation: u64,
}

impl ResetCreditRescueLeader {
    /// The request id of the redemption.
    pub closed spec fn spec_redeem_request_id(self) -> String {
        self.redeem_request_id
    }

    /// The generation of the leader's own attempt.
    pub closed spec fn attempt(self) -> u64 {
        self.generation
    }

    pub fn redeem_request_id(&self) -> (id: &str)
        ensures
            id@ == self.spec_redeem_request_id()@,
    {
        self.redeem_request_id.as_str()
    }
}

/// The wait for the end of one attempt.
#[derive(Clone, Debug, PartialEq, Eq)]
pub struct ResetCreditRescueFollower {
    generation: u64,
}

impl ResetCreditRescueFollower {
    /// The generation of the attempt that is waited for.
    pub closed spec fn attempt(self) -> u64 {
        self.generation
    }

    /// Whether the follower may go on: its own attempt is not running any more, whatever other
    /// attempt is.
    pub fn is_finished(&self, singleflight: &ResetCreditRescueSingleflight) -> (finished: bool)
        ensures
            finished == !singleflight.is_running(self.attempt()),
    {
        match &singleflight.current {
            Some(attempt) => match attempt.status {
                ResetCreditRescueAttemptStatus::Pending => attempt.key.generation
                    != self.generation,
                ResetCreditRescueAttemptStatus::Finished => true,
            },
            None => true,
        }
    }
}

/// The latest attempt, if any.
#[derive(Debug, PartialEq, Eq)]
pub struct ResetCreditRescueSingleflight {
    pub current: Option<ResetCreditRescueAttemptState>,
}

impl Default for ResetCreditRescueSingleflight {
    fn default() -> (singleflight: Self)
        ensures
            singleflight.current is None,
    {
        ResetCreditRescueSingleflight { current: None }
    }
}

impl ResetCreditRescueSingleflight {
    /// Whether an attempt is running.
    pub open spec fn is_pending(self) -> bool {
        self.current is Some && self.current->0.status == ResetCreditRescueAttemptStatus::Pending
    }

    /// Whether the attempt of a generation is running.
    pub open spec fn is_running(self, generation: u64) -> bool {
        self.is_pending() && self.current->0.key.generation == generation
    }

    /// Whether a failure of a generation may start a new attempt: none is running, and every
    /// earlier one was for an earlier generation.
    pub open spec fn may_start(self, generation: u64) -> bool {
        !self.is_pending() && (self.current is Some ==> self.current->0.key.generation
            < generation)
    }

    /// The state after a caller came with a failure.
    pub open spec fn after_begin(self, key: ResetCreditRescueAttemptKey) -> Self {
        if self.may_start(key.generation) {
            ResetCreditRescueSingleflight {
                current: Some(
                    ResetCreditRescueAttemptState {
                        key,
                        status: ResetCreditRescueAttemptStatus::Pending,
                    },
                ),
            }
        } else {
            self
        }
    }

    /// The state after the leader of the attempt of a generation ended it.
    pub open spec fn after_finish(self, generation: u64) -> Self {
        if self.is_running(generation) {
            ResetCreditRescueSingleflight {
                current: Some(
                    ResetCreditRescueAttemptState {
                        key: self.current->0.key,
                        status: ResetCreditRescueAttemptStatus::Finished,
                    },
                ),
            }
        } else {
            self
        }
    }

    /// Whether a caller with a failure gets this part in an attempt.
    pub open spec fn is_part_of(
        self,
        key: ResetCreditRescueAttemptKey,
        redeem_request_id: String,
        attempt: ResetCreditRescueAttempt,
    ) -> bool {
        match attempt {
            ResetCreditRescueAttempt::Leader(leader) => {
                &&& self.may_start(key.generation)
                &&& leader.spec_redeem_request_id() == redeem_request_id
                &&& leader.attempt() == key.generation
            },
            ResetCreditRescueAttempt::Follower(follower) => {
                &&& self.is_pending()
                &&& follower.attempt() == self.current->0.key.generation
            },
            ResetCreditRescueAttempt::AlreadyFinished => {
                &&& !self.is_pending()
                &&& !self.may_start(key.generation)
            },
        }
    }

    /// Joins or starts the attempt for a failure. `redeem_request_id` is used only by a leader.
    pub fn begin(
        &mut self,
        key: ResetCreditRescueAttemptKey,
        redeem_request_id: String,
    ) -> (attempt: ResetCreditRescueAttempt)
        ensures
            *final(self) == old(self).after_begin(key),
            old(self).is_part_of(key, redeem_request_id, attempt),
    {
        if let Some(attempt) = &self.current {
            match attempt.status {
                ResetCreditRescueAttemptStatus::Pending => {
                    return ResetCreditRescueAttempt::Follower(
                        ResetCreditRescueFollower { generation: attempt.key.generation },
                    );
                },
                ResetCreditRescueAttemptStatus::Finished => {},
            }
            if key.generation <= attempt.key.generation {
                return ResetCreditRescueAttempt::AlreadyFinished;
            }
        }
        let generation: u64 = key.generation;
        self.current =
        Some(
            ResetCreditRescueAttemptState { key, status: ResetCreditRescueAttemptStatus::Pending },
        );
        ResetCreditRescueAttempt::Leader(ResetCreditRescueLeader { redeem_request_id, generation })
    }

    /// Ends the leader's own attempt, so that its followers go on and its generation is closed; any
    /// other attempt stays as it is. Called by the leader, also where it was cancelled.
    pub fn finish(&mut self, leader: ResetCreditRescueLeader)
        ensures
            *final(self) == old(self).after_finish(leader.attempt()),
    {
        if let Some(attempt) = self.current.take() {
            let status = if attempt.key.generation == leader.generation {
                ResetCreditRescueAttemptStatus::Finished
            } else {
                attempt.status
            };
            self.current = Some(ResetCreditRescueAttemptState { key: attempt.key, status });
        }
    }
}

/// One credit at most is spent on one failure, and one at a time: a leader starts only where no
/// attempt runs, and once its generation is finished, neither that generation nor an earlier one can
/// start again, while a later one can.
pub proof fn law_one_leader_per_generation(
    before: ResetCreditRescueSingleflight,
    key: ResetCreditRescueAttemptKey,
    other: u64,
)
    requires
        before.may_start(key.generation),
    ensures
        !before.is_pending(),
        before.current is Some ==> before.current->0.key.generation < key.generation,
        !before.after_begin(key).may_start(other),
        before.after_begin(key).after_finish(key.generation).may_start(other) <==> other
            > key.generation,
{
}

/// What can happen to the attempts: a caller comes with a failure, or the leader of an attempt ends
/// it.
pub enum FlightStep {
    Begin { key: ResetCreditRescueAttemptKey },
    Finish { generation: u64 },
}

/// The state after a series of steps.
pub open spec fn after_steps(
    singleflight: ResetCreditRescueSingleflight,
    steps: Seq<FlightStep>,
) -> ResetCreditRescueSingleflight
    decreases steps.len(),
{
    if steps.len() == 0 {
        singleflight
    } else {
        let before = after_steps(singleflight, steps.drop_last());
        match steps.last() {
            FlightStep::Begin { key } => before.after_begin(key),
            FlightStep::Finish { generation } => before.after_finish(generation),
        }
    }
}

/// Once the leader of an attempt has ended it, every follower of that attempt may go on, and keeps
/// being told so whatever attempts are begun and ended afterwards.
pub proof fn law_finished_attempt_releases_its_followers(
    running: ResetCreditRescueSingleflight,
    follower: ResetCreditRescueFollower,
    steps: Seq<FlightStep>,
)
    requires
        running.is_running(follower.attempt()),
    ensures
        !after_steps(running.after_finish(follower.attempt()), steps).is_running(
            follower.attempt(),
        ),
        ({
            let reached = after_steps(running.after_finish(follower.attempt()), steps);
            reached.current is Some && reached.current->0.key.generation >= follower.attempt()
        }),
    decreases steps.len(),
{
    if steps.len() > 0 {
        law_finished_attempt_releases_its_followers(running, follower, steps.drop_last());
    }
}

/// A leader ends no attempt but its own: while another attempt runs, its followers keep waiting.
pub proof fn law_leader_ends_its_own_attempt_only(
    running: ResetCreditRescueSingleflight,
    leader: ResetCreditRescueLeader,
    generation: u64,
)
    requires
        running.is_running(generation),
        leader.attempt() != generation,
    ensures
        running.after_finish(leader.attempt()).is_running(generation),
        running.after_finish(leader.attempt()) == running,
{
}

/// A failure starts an attempt wherever none was made yet, or the last one is over and was for an
/// earlier generation; the attempt then runs for that very failure. While an attempt runs, another
/// failure changes nothing, and a failure that the last attempt was made for starts none.
pub proof fn law_attempts_start_where_none_runs(
    flight: ResetCreditRescueSingleflight,
    key: ResetCreditRescueAttemptKey,
)
    ensures
        ({
            let after = flight.after_begin(key);
            let runs = flight.current is Some && flight.current->0.status is Pending;
            let is_newer = flight.current is Some && flight.current->0.key.generation
                < key.generation;
            &&& flight.current is None || (!runs && is_newer) ==> {
                &&& flight.may_start(key.generation)
                &&& after.current is Some
                &&& after.current->0.key == key
                &&& after.current->0.status is Pending
                &&& after.is_running(key.generation)
            }
            &&& runs ==> after == flight && flight.is_pending() && !flight.may_start(key.generation)
            &&& flight.current is Some && !runs && !is_newer ==> after == flight
                && !flight.is_pending() && !flight.may_start(key.generation)
        }),
{
}

/// The end of a running attempt closes it and keeps what it was for.
pub proof fn law_ended_attempt_is_closed(flight: ResetCreditRescueSingleflight, generation: u64)
    ensures
        ({
            let after = flight.after_finish(generation);
            let own = flight.current is Some && flight.current->0.key.generation == generation;
            &&& own && flight.current->0.status is Pending ==> after.current is Some
                && after.current->0.key == flight.current->0.key && after.current->0.status
                is Finished
            &&& !own ==> after == flight
        }),
{
}

/// The caller that starts an attempt leads it, with its own request id; one that comes while an
/// attempt runs follows that attempt; and one whose failure was dealt with already does neither.
pub proof fn law_callers_lead_follow_or_are_done(
    flight: ResetCreditRescueSingleflight,
    key: ResetCreditRescueAttemptKey,
    redeem_request_id: String,
    attempt: ResetCreditRescueAttempt,
)
    requires
        flight.is_part_of(key, redeem_request_id, attempt),
    ensures
        ({
            let runs = flight.current is Some && flight.current->0.status is Pending;
            let done = flight.current is Some && !runs && key.generation
                <= flight.current->0.key.generation;
            &&& attempt is Follower <==> runs
            &&& attempt is AlreadyFinished <==> done
            &&& attempt is Leader <==> !runs && !done
            &&& attempt matches ResetCreditRescueAttempt::Leader(leader)
                ==> leader.spec_redeem_request_id() == redeem_request_id && leader.attempt()
                == key.generation
            &&& attempt matches ResetCreditRescueAttempt::Follower(follower) ==> follower.attempt()
                == flight.current->0.key.generation
        }),
{
}

} // verus!
