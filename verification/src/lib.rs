//! Decision logic of a multi-account execution pool.
use vstd::prelude::*;

pub mod account_cmd;
pub mod account_config;
pub mod account_selector;
pub mod account_transition;
pub mod account_transition_notice;
pub mod account_window_warmup;
pub mod account_window_warmup_request;
pub mod accounts;
pub mod compact_task;
pub mod config;
pub mod execution_account_pool;
pub mod execution_auth;
pub mod execution_model_client;
pub mod execution_provenance;
pub mod execution_request_auth;
pub mod failover;
pub mod failover_checkpoint;
pub mod failover_turn;
pub mod history;
pub mod managed_install;
pub mod mobile_account_bridge;
pub mod mobile_account_status;
pub mod mobile_commands;
pub mod mobile_laws;
pub mod opaque_history_migration;
pub mod order;
pub mod percent;
pub mod pool_quota;
pub mod portable_compaction;
pub mod portable_history;
pub mod projection_laws;
pub mod protocol;
pub mod quota_exhaustion;
pub mod reset_credit_rescue;
pub mod reset_credit_singleflight;
pub mod sampling_attempt;
pub mod seqs;
pub mod text;
pub mod time;
pub mod warmup_debug;
pub mod warmup_laws;

verus! {

} // verus!
