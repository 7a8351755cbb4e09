# account_pool

Decisions of a pool of Codex accounts, verified with Verus: which account a request runs on, what a
failed request does to its account, how a turn goes on after an account switch, which history items
another account may see, when a reset credit is redeemed, how standby accounts are warmed up, and what
the command line and mobile clients are told.

- `src/` is the verified library. Every public function states its result in `ensures`; proof functions
  named `law_...` state what holds across functions.
- `app/` is the host side in ordinary Rust: files, processes, network, time and serialization around the
  library.
- `tests/` runs the library on concrete values.

The modules of `src/`:

| modules | subject |
| --- | --- |
| `text`, `seqs`, `percent`, `time`, `order` | strings, sequences, percentages by their bits, instants, a stable order |
| `accounts`, `config`, `protocol`, `history` | the data |
| `execution_auth`, `execution_account_pool`, `execution_model_client`, `execution_request_auth`, `execution_provenance` | the account that a request is bound to |
| `failover`, `failover_checkpoint`, `failover_turn`, `sampling_attempt`, `quota_exhaustion` | failed requests |
| `account_transition`, `account_transition_notice`, `portable_history`, `portable_compaction`, `opaque_history_migration`, `compact_task` | history across accounts |
| `reset_credit_rescue`, `reset_credit_singleflight` | reset credits |
| `account_window_warmup`, `account_window_warmup_request`, `warmup_debug`, `pool_quota` | warmup and quota of standby accounts |
| `mobile_account_status`, `mobile_account_bridge`, `mobile_commands` | mobile clients |
| `account_cmd`, `account_config`, `account_selector`, `managed_install` | the command line |

What is not proved is marked `#[verifier::external_body]` or `assume_specification`: calls into std,
chrono, sha2 and toml, each with a comment that says what is claimed of the call.
