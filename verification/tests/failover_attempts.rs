use account_pool::failover_checkpoint::FailoverRetryMode;
use account_pool::failover_checkpoint::SamplingAttemptCheckpoint;
use account_pool::failover_turn::directive_for_retry_mode;
use account_pool::failover_turn::handle_sampling_failover;
use account_pool::failover_turn::AccountFailoverTransition;
use account_pool::failover_turn::SamplingFailoverDirective;
use account_pool::failover::FailoverCause;
use account_pool::failover::FailoverOutcome;
use account_pool::sampling_attempt::install_sampling_attempt;
use account_pool::sampling_attempt::mark_sampling_response_started;
use account_pool::sampling_attempt::mark_sampling_visible_output;
use account_pool::sampling_attempt::sampling_attempt;
use account_pool::sampling_attempt::TurnContext;

#[test]
fn untouched_attempt_can_be_replayed() {
    assert_eq!(
        SamplingAttemptCheckpoint::default().retry_mode(),
        FailoverRetryMode::ReplayCurrentSamplingRequest
    );
}

#[test]
fn response_envelope_without_output_can_be_replayed() {
    let mut checkpoint = SamplingAttemptCheckpoint::default();
    checkpoint.mark_response_started();
    assert_eq!(
        checkpoint.retry_mode(),
        FailoverRetryMode::ReplayCurrentSamplingRequest
    );
}

#[test]
fn partial_ui_output_must_be_closed_before_replay() {
    let mut checkpoint = SamplingAttemptCheckpoint::default();
    checkpoint.mark_visible_output_emitted();
    assert_eq!(
        checkpoint.retry_mode(),
        FailoverRetryMode::ReplayAfterAbandoningPartialOutput
    );
}

#[test]
fn persisted_tool_call_continues_from_history() {
    let mut checkpoint = SamplingAttemptCheckpoint::default();
    checkpoint.mark_tool_call_persisted();
    assert_eq!(
        checkpoint.retry_mode(),
        FailoverRetryMode::ContinueFromDurableHistory
    );
    checkpoint.mark_tool_result_committed();
    assert_eq!(
        checkpoint.retry_mode(),
        FailoverRetryMode::ContinueFromDurableHistory
    );
}

#[test]
fn unreconciled_tool_failure_blocks_automatic_replay() {
    let mut checkpoint = SamplingAttemptCheckpoint::default();
    checkpoint.mark_tool_call_persisted();
    checkpoint.mark_tool_reconciliation_failed();
    assert_eq!(
        checkpoint.retry_mode(),
        FailoverRetryMode::ReconcileCurrentAttempt
    );
}

#[test]
fn durable_output_continues_from_history() {
    let mut checkpoint = SamplingAttemptCheckpoint::default();
    checkpoint.mark_visible_output_emitted();
    checkpoint.mark_completed_output_persisted();
    assert_eq!(
        checkpoint.retry_mode(),
        FailoverRetryMode::ContinueFromDurableHistory
    );
}

#[test]
fn order_of_progress_does_not_matter() {
    let mut one = SamplingAttemptCheckpoint::default();
    one.mark_tool_result_committed();
    one.mark_visible_output_emitted();
    let mut other = SamplingAttemptCheckpoint::default();
    other.mark_visible_output_emitted();
    other.mark_tool_result_committed();
    assert_eq!(one, other);
    assert_eq!(
        one.retry_mode(),
        FailoverRetryMode::ContinueFromDurableHistory
    );
}

#[test]
fn non_account_failure_directive_is_stable() {
    assert!(matches!(
        SamplingFailoverDirective::NotHandled,
        SamplingFailoverDirective::NotHandled
    ));
}

#[test]
fn directives_follow_the_retry_mode() {
    let transition = AccountFailoverTransition::Rebound;
    assert_eq!(
        directive_for_retry_mode(
            FailoverRetryMode::ReplayCurrentSamplingRequest,
            transition
        ),
        SamplingFailoverDirective::ReplayCurrentSamplingRequest { transition }
    );
    assert_eq!(
        directive_for_retry_mode(FailoverRetryMode::ContinueFromDurableHistory, transition),
        SamplingFailoverDirective::ContinueFromDurableHistory { transition }
    );
    assert_eq!(
        directive_for_retry_mode(
            FailoverRetryMode::ReplayAfterAbandoningPartialOutput,
            transition
        ),
        SamplingFailoverDirective::ReconcileCurrentAttempt { transition }
    );
    assert_eq!(
        directive_for_retry_mode(FailoverRetryMode::ReconcileCurrentAttempt, transition),
        SamplingFailoverDirective::ReconcileCurrentAttempt { transition }
    );
}

#[test]
fn outcomes_of_a_failover_are_turned_into_directives() {
    let untouched = SamplingAttemptCheckpoint::default();
    let mut shown = SamplingAttemptCheckpoint::default();
    shown.mark_visible_output_emitted();
    let rebound = FailoverOutcome::Rebound {
        cause: FailoverCause::UsageLimitReached,
        from_profile: Some("a".to_string()),
        from_generation: 1,
        to_profile: Some("b".to_string()),
        to_generation: 2,
    };
    assert_eq!(
        handle_sampling_failover(&FailoverOutcome::NotApplicable, untouched),
        SamplingFailoverDirective::NotHandled
    );
    assert_eq!(
        handle_sampling_failover(
            &FailoverOutcome::PoolExhausted {
                cause: FailoverCause::UsageLimitReached
            },
            untouched
        ),
        SamplingFailoverDirective::PoolExhausted
    );
    assert_eq!(
        handle_sampling_failover(&rebound, untouched),
        SamplingFailoverDirective::ReplayCurrentSamplingRequest {
            transition: AccountFailoverTransition::Rebound
        }
    );
    assert_eq!(
        handle_sampling_failover(&rebound, shown),
        SamplingFailoverDirective::ReconcileCurrentAttempt {
            transition: AccountFailoverTransition::Rebound
        }
    );
}

#[test]
fn attempt_state_of_a_turn_is_tracked() {
    let mut turn = TurnContext::default();
    mark_sampling_response_started(&mut turn);
    assert!(sampling_attempt(&turn).is_none());
    install_sampling_attempt(&mut turn);
    mark_sampling_response_started(&mut turn);
    let mut expected = SamplingAttemptCheckpoint::default();
    expected.mark_response_started();
    let current = sampling_attempt(&turn).unwrap();
    assert_eq!(current.snapshot(&turn.attempts), expected);
    mark_sampling_visible_output(&mut turn);
    expected.mark_visible_output_emitted();
    assert_eq!(current.snapshot(&turn.attempts), expected);
    install_sampling_attempt(&mut turn);
    assert_eq!(
        sampling_attempt(&turn).unwrap().snapshot(&turn.attempts),
        SamplingAttemptCheckpoint::default()
    );
    assert_eq!(current.snapshot(&turn.attempts), expected);
}

#[test]
fn marks_are_seen_through_every_handle_on_an_attempt() {
    let mut turn = TurnContext::default();
    let installed = install_sampling_attempt(&mut turn);
    let copy = installed;
    copy.mark_visible_output_emitted(&mut turn.attempts);
    let mut expected = SamplingAttemptCheckpoint::default();
    expected.mark_visible_output_emitted();
    assert_eq!(installed.snapshot(&turn.attempts), expected);
    assert_eq!(
        sampling_attempt(&turn).unwrap().snapshot(&turn.attempts),
        expected
    );
    let next = install_sampling_attempt(&mut turn);
    installed.mark_response_started(&mut turn.attempts);
    assert_eq!(
        next.snapshot(&turn.attempts),
        SamplingAttemptCheckpoint::default()
    );
    mark_sampling_response_started(&mut turn);
    assert!(next.snapshot(&turn.attempts).response_started);
    assert!(!next.snapshot(&turn.attempts).visible_output_emitted);
}

#[test]
fn checkpoint_updates_are_applied() {
    let mut attempts = TurnContext::default().attempts;
    let state = attempts.open();
    state.with_checkpoint(&mut attempts, |mut checkpoint| {
        checkpoint.mark_tool_call_persisted();
        checkpoint
    });
    assert!(state.snapshot(&attempts).tool_call_persisted);
    state.mark_response_started(&mut attempts);
    assert!(state.snapshot(&attempts).tool_call_persisted);
    assert!(state.snapshot(&attempts).response_started);
}
