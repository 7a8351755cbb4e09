use account_pool::account_transition::envelope_from_execution;
use account_pool::account_transition::history_item_ownership;
use account_pool::account_transition::sanitize_foreign_item;
use account_pool::account_transition::AccountHistoryTransition;
use account_pool::account_transition::AccountHistoryTransitionError;
use account_pool::account_transition::AccountHistoryTransitionStats;
use account_pool::account_transition::HistoryItemOwnership;
use account_pool::account_transition_notice::AccountTransitionToolOutputNotice;
use account_pool::accounts::AccountLease;
use account_pool::execution_auth::ExecutionAuthBinding;
use account_pool::execution_auth::ExecutionAuthLease;
use account_pool::execution_auth::ExecutionAuthMode;
use account_pool::execution_provenance::record_conversation_items_with_execution_provenance;
use account_pool::execution_provenance::sampling_execution_provenance;
use account_pool::execution_provenance::set_sampling_execution_provenance;
use account_pool::history::CodexHarnessMetadata;
use account_pool::history::ContentItem;
use account_pool::history::ContentItemKind;
use account_pool::history::FunctionCallOutputBody;
use account_pool::history::FunctionCallOutputContentItem;
use account_pool::history::FunctionCallOutputPayload;
use account_pool::history::InternalChatMessageMetadataPassthrough;
use account_pool::history::ReasoningItemReasoningSummary;
use account_pool::history::ResponseItem;
use account_pool::history::ResponseItemEnvelope;
use account_pool::opaque_history_migration::preflight_account_transition;
use account_pool::opaque_history_migration::AccountTransitionReadiness;
use account_pool::opaque_history_migration::AccountTransitionTargetProfile;
use account_pool::portable_compaction::project_history_for_execution;
use account_pool::portable_compaction::trace_projection;
use account_pool::portable_compaction::PortableCompactionPolicy;
use account_pool::portable_history::is_opaque_compaction;
use account_pool::portable_history::portable_history_status;
use account_pool::portable_history::PortableHistoryStatus;
use account_pool::sampling_attempt::TurnContext;

fn envelope(
    item: ResponseItem,
    profile: Option<&str>,
    generation: Option<u64>,
) -> ResponseItemEnvelope {
    ResponseItemEnvelope {
        item,
        metadata: Some(CodexHarnessMetadata {
            execution_profile_id: profile.map(str::to_string),
            execution_generation: generation,
            ..CodexHarnessMetadata::default()
        }),
    }
}

fn passthrough(turn_id: &str) -> Option<InternalChatMessageMetadataPassthrough> {
    Some(InternalChatMessageMetadataPassthrough {
        turn_id: Some(turn_id.to_string()),
        content_item_kinds: None,
    })
}

fn unattributed_message(role: &str, suffix: &str, content_kind: &str) -> ResponseItem {
    ResponseItem::Message {
        id: Some(format!("msg_{suffix}")),
        role: role.to_string(),
        content: vec![ContentItem::InputText {
            text: suffix.to_string(),
        }],
        phase: None,
        internal_chat_message_metadata_passthrough: Some(InternalChatMessageMetadataPassthrough {
            turn_id: Some(format!("turn-{suffix}")),
            content_item_kinds: Some(vec![ContentItemKind(content_kind.to_string())]),
        }),
    }
}

#[test]
fn portable_unattributed_history_retains_ids_and_content_annotations() {
    let portable = vec![
        unattributed_message("user", "user", "user.text"),
        unattributed_message(
            "developer",
            "developer-context",
            "generic.developer_instructions",
        ),
        unattributed_message(
            "developer",
            "world-state",
            "environment_context.instructions",
        ),
    ];
    let model_or_server = [
        ResponseItem::Message {
            id: Some("msg_assistant".to_string()),
            role: "assistant".to_string(),
            content: vec![ContentItem::OutputText {
                text: "model output".to_string(),
            }],
            phase: None,
            internal_chat_message_metadata_passthrough: passthrough("turn-assistant"),
        },
        ResponseItem::Reasoning {
            id: Some("rs_reasoning".to_string()),
            summary: vec![ReasoningItemReasoningSummary::SummaryText {
                text: "readable summary".to_string(),
            }],
            content: None,
            encrypted_content: Some("opaque-reasoning".to_string()),
            internal_chat_message_metadata_passthrough: None,
        },
        ResponseItem::FunctionCall {
            id: Some("fc_tool-call".to_string()),
            name: "example".to_string(),
            namespace: None,
            arguments: "{}".to_string(),
            encrypted_function_args: Some(vec!["opaque-arguments".to_string()]),
            call_id: "call-1".to_string(),
            internal_chat_message_metadata_passthrough: None,
        },
        ResponseItem::FunctionCallOutput {
            id: Some("fco_tool-output".to_string()),
            call_id: Some("call-1".to_string()),
            name: None,
            namespace: None,
            output: FunctionCallOutputPayload::from_content_items(vec![
                FunctionCallOutputContentItem::InputText {
                    text: "portable tool text".to_string(),
                },
                FunctionCallOutputContentItem::EncryptedContent {
                    encrypted_content: "opaque-tool-output".to_string(),
                },
            ]),
            internal_chat_message_metadata_passthrough: None,
        },
        ResponseItem::Compaction {
            id: Some("cmp_empty".to_string()),
            encrypted_content: String::new(),
            internal_chat_message_metadata_passthrough: None,
        },
    ];
    let history = portable
        .iter()
        .chain(model_or_server.iter())
        .cloned()
        .map(ResponseItemEnvelope::new)
        .collect();
    let transition = AccountHistoryTransition {
        target_profile_id: Some("managed-target".to_string()),
        target_generation: 9,
        legacy_unattributed_profile_id: Some("legacy-root".to_string()),
    };

    let (projected, _) = transition
        .prepare_for_request(history)
        .expect("unattributed portable history should be projectable");

    assert_eq!(&projected[..portable.len()], portable.as_slice());
    assert!(
        projected[portable.len()..]
            .iter()
            .all(|item| item.id().is_none())
    );
    let ResponseItem::Reasoning {
        encrypted_content, ..
    } = &projected[portable.len() + 1]
    else {
        panic!("expected projected reasoning");
    };
    assert_eq!(encrypted_content, &None);
    let ResponseItem::FunctionCall {
        encrypted_function_args,
        ..
    } = &projected[portable.len() + 2]
    else {
        panic!("expected projected tool call");
    };
    assert_eq!(encrypted_function_args, &None);
    let ResponseItem::FunctionCallOutput { output, .. } = &projected[portable.len() + 3] else {
        panic!("expected projected tool output");
    };
    assert_eq!(
        output.body,
        FunctionCallOutputBody::ContentItems(vec![FunctionCallOutputContentItem::InputText {
            text: "portable tool text".to_string(),
        },])
    );
}

#[test]
fn single_profile_foreign_history_is_projected() {
    let foreign = ResponseItem::Reasoning {
        id: Some("rs_foreign".to_string()),
        summary: vec![ReasoningItemReasoningSummary::SummaryText {
            text: "portable summary".to_string(),
        }],
        content: None,
        encrypted_content: Some("opaque-profile-a-state".to_string()),
        internal_chat_message_metadata_passthrough: passthrough("turn-profile-a"),
    };
    let history = vec![envelope(foreign, Some("profile-a"), Some(3))];
    let transition = AccountHistoryTransition {
        target_profile_id: Some("profile-b".to_string()),
        target_generation: 1,
        legacy_unattributed_profile_id: None,
    };

    assert!(transition.history_requires_projection(&history));

    let (projected, stats) = transition
        .prepare_for_request(history)
        .expect("foreign history should be projectable with one configured target profile");

    assert_eq!(
        projected,
        vec![ResponseItem::Reasoning {
            id: None,
            summary: vec![ReasoningItemReasoningSummary::SummaryText {
                text: "portable summary".to_string(),
            }],
            content: None,
            encrypted_content: None,
            internal_chat_message_metadata_passthrough: None,
        }]
    );
    assert_eq!(
        stats,
        AccountHistoryTransitionStats {
            cleared_response_ids: 1,
            cleared_internal_metadata: 1,
            stripped_reasoning_blobs: 1,
            ..AccountHistoryTransitionStats::default()
        }
    );
}

#[test]
fn foreign_reasoning_drops_opaque_blob_but_keeps_summary() {
    let mut stats = AccountHistoryTransitionStats::default();
    let item = ResponseItem::Reasoning {
        id: None,
        summary: vec![ReasoningItemReasoningSummary::SummaryText {
            text: "portable summary".to_string(),
        }],
        content: None,
        encrypted_content: Some("opaque-a".to_string()),
        internal_chat_message_metadata_passthrough: None,
    };
    let sanitized = sanitize_foreign_item(
        item,
        &Some("account-a".to_string()),
        &Some("account-b".to_string()),
        &mut stats,
    )
    .expect("foreign reasoning should be sanitizable")
    .expect("summary should keep the reasoning item");
    let ResponseItem::Reasoning {
        encrypted_content, ..
    } = sanitized
    else {
        panic!("expected reasoning item");
    };
    assert_eq!(encrypted_content, None);
    assert_eq!(stats.stripped_reasoning_blobs, 1);
}

#[test]
fn foreign_encrypted_only_tool_output_keeps_call_pair_with_placeholder() {
    let mut stats = AccountHistoryTransitionStats::default();
    let item = ResponseItem::FunctionCallOutput {
        id: None,
        call_id: Some("call-1".to_string()),
        name: None,
        namespace: None,
        output: FunctionCallOutputPayload::from_content_items(vec![
            FunctionCallOutputContentItem::EncryptedContent {
                encrypted_content: "opaque-tool-output".to_string(),
            },
        ]),
        internal_chat_message_metadata_passthrough: None,
    };
    let sanitized = sanitize_foreign_item(
        item,
        &Some("account-a".to_string()),
        &Some("account-b".to_string()),
        &mut stats,
    )
    .expect("tool output should be sanitizable")
    .expect("tool output must remain paired");
    let ResponseItem::FunctionCallOutput { output, .. } = sanitized else {
        panic!("expected tool output");
    };
    assert_eq!(
        output.body,
        FunctionCallOutputBody::Text(AccountTransitionToolOutputNotice.render())
    );
    assert_eq!(stats.stripped_encrypted_tool_outputs, 1);
}

#[test]
fn foreign_opaque_compaction_fails_closed() {
    let mut stats = AccountHistoryTransitionStats::default();
    let error = sanitize_foreign_item(
        ResponseItem::Compaction {
            id: None,
            encrypted_content: "opaque-compaction".to_string(),
            internal_chat_message_metadata_passthrough: None,
        },
        &Some("account-a".to_string()),
        &Some("account-b".to_string()),
        &mut stats,
    )
    .expect_err("opaque compaction must not be silently discarded");
    assert!(matches!(
        error,
        AccountHistoryTransitionError::OpaqueCompaction { .. }
    ));
}

#[test]
fn metadata_fixture_documents_history_wire_extension() {
    let profile = "account-a";
    let envelope = envelope(
        ResponseItem::Message {
            id: None,
            role: "assistant".to_string(),
            content: Vec::new(),
            phase: None,
            internal_chat_message_metadata_passthrough: None,
        },
        Some(profile),
        Some(7),
    );
    assert_eq!(
        envelope
            .metadata
            .as_ref()
            .and_then(|metadata| metadata.execution_profile_id.as_deref()),
        Some("account-a")
    );
}

fn target(profile: Option<&str>, legacy_owner: Option<&str>) -> AccountTransitionTargetProfile {
    AccountTransitionTargetProfile {
        profile_id: profile.map(str::to_string),
        legacy_unattributed_profile_id: legacy_owner.map(str::to_string),
        stock_execution: profile.is_none(),
    }
}

fn opaque_compaction(owner_profile_id: Option<&str>) -> ResponseItemEnvelope {
    ResponseItemEnvelope {
        item: ResponseItem::Compaction {
            id: None,
            encrypted_content: "opaque-checkpoint".to_string(),
            internal_chat_message_metadata_passthrough: None,
        },
        metadata: owner_profile_id.map(|profile_id| CodexHarnessMetadata {
            execution_profile_id: Some(profile_id.to_string()),
            execution_generation: Some(4),
            ..CodexHarnessMetadata::default()
        }),
    }
}

#[test]
fn opaque_history_preflight_classifies_owner_readiness() {
    let cases = [
        (Some("a"), target(Some("b"), None), Some(Some("a"))),
        (
            None,
            target(Some("b"), Some("legacy-root")),
            Some(Some("legacy-root")),
        ),
        (None, target(Some("b"), None), Some(None)),
        (None, target(None, None), None),
    ];

    for (owner, target_profile, expected_owner) in cases {
        let actual_owner = match preflight_account_transition(
            &vec![opaque_compaction(owner)],
            &vec![true],
            &target_profile,
        ) {
            AccountTransitionReadiness::Ready => None,
            AccountTransitionReadiness::MigrationRequired { owner_profile_id } => {
                Some(owner_profile_id.map(|profile_id| profile_id.to_string()))
            }
        };
        assert_eq!(
            actual_owner,
            expected_owner.map(|owner| owner.map(str::to_string)),
        );
    }
}

fn user_history(metadata: Option<CodexHarnessMetadata>) -> Vec<ResponseItemEnvelope> {
    vec![ResponseItemEnvelope {
        item: ResponseItem::Message {
            id: None,
            role: "user".to_string(),
            content: vec![ContentItem::InputText {
                text: "portable user context".to_string(),
            }],
            phase: None,
            internal_chat_message_metadata_passthrough: None,
        },
        metadata,
    }]
}

#[test]
fn stock_history_with_execution_provenance_requires_portable_compaction() {
    let provenance = CodexHarnessMetadata {
        execution_profile_id: Some("profile-a".to_string()),
        execution_generation: Some(7),
        ..CodexHarnessMetadata::default()
    };

    assert_eq!(
        PortableCompactionPolicy::for_history(
            &ExecutionAuthMode::Stock,
            &user_history(Some(provenance)),
        ),
        PortableCompactionPolicy::Portable,
    );
    assert_eq!(
        PortableCompactionPolicy::for_history(&ExecutionAuthMode::Stock, &user_history(None)),
        PortableCompactionPolicy::Stock,
    );
}

#[test]
fn ordinary_messages_are_portable() {
    let history = [ResponseItemEnvelope::new(ResponseItem::Message {
        id: None,
        role: "assistant".to_string(),
        content: Vec::new(),
        phase: None,
        internal_chat_message_metadata_passthrough: None,
    })];
    assert!(!is_opaque_compaction(&history[0].item));
}

#[test]
fn encrypted_compaction_is_detected() {
    let item = ResponseItem::Compaction {
        id: None,
        encrypted_content: "opaque".to_string(),
        internal_chat_message_metadata_passthrough: None,
    };
    assert!(is_opaque_compaction(&item));
}

fn pooled(profile_id: &str, generation: u64) -> ExecutionAuthLease {
    ExecutionAuthLease::from_account_lease(AccountLease {
        profile_id: profile_id.to_string(),
        generation,
        auth_manager: 1,
    })
}

fn assistant_message(id: &str) -> ResponseItem {
    ResponseItem::Message {
        id: Some(id.to_string()),
        role: "assistant".to_string(),
        content: Vec::new(),
        phase: None,
        internal_chat_message_metadata_passthrough: passthrough("turn"),
    }
}

#[test]
fn stamped_items_return_to_their_lease_unchanged() {
    let lease = pooled("a", 3);
    let stamped = envelope_from_execution(assistant_message("msg_1"), &lease);
    assert_eq!(
        history_item_ownership(&stamped),
        HistoryItemOwnership::ExecutionScoped {
            profile_id: "a".to_string(),
            generation: Some(3)
        }
    );
    let transition = AccountHistoryTransition::pooled(&lease, None);
    assert!(!transition.history_requires_projection(&vec![stamped.clone()]));
    let (sent, stats) = transition.prepare_for_request(vec![stamped]).unwrap();
    assert_eq!(sent, vec![assistant_message("msg_1")]);
    assert_eq!(stats, AccountHistoryTransitionStats::default());
}

#[test]
fn own_items_of_an_older_generation_keep_encrypted_content() {
    let reasoning = ResponseItem::Reasoning {
        id: Some("rs_1".to_string()),
        summary: Vec::new(),
        content: None,
        encrypted_content: Some("own".to_string()),
        internal_chat_message_metadata_passthrough: None,
    };
    let transition = AccountHistoryTransition::pooled(&pooled("a", 4), None);
    let (sent, _) = transition
        .prepare_for_request(vec![envelope(reasoning, Some("a"), Some(3))])
        .unwrap();
    let ResponseItem::Reasoning {
        encrypted_content, ..
    } = &sent[0]
    else {
        panic!("expected reasoning");
    };
    assert_eq!(encrypted_content.as_deref(), Some("own"));
}

#[test]
fn stock_turns_project_what_pool_accounts_wrote() {
    let transition = AccountHistoryTransition::stock();
    let history = vec![envelope(assistant_message("msg_1"), Some("a"), Some(3))];
    assert!(transition.history_requires_projection(&history));
    let (sent, _) = transition.prepare_for_request(history).unwrap();
    assert!(sent[0].id().is_none());
    let error = transition
        .prepare_for_request(vec![opaque_compaction(Some("a"))])
        .unwrap_err();
    assert_eq!(
        error,
        AccountHistoryTransitionError::OpaqueCompaction {
            source_profile_id: Some("a".to_string()),
            target_profile_id: None,
        }
    );
    assert!(!error.message().is_empty());
}

#[test]
fn status_of_history_goes_by_the_owner_of_its_checkpoints() {
    let active = pooled("a", 3);
    let legacy = Some("legacy-root".to_string());
    assert_eq!(
        portable_history_status(
            &vec![ResponseItemEnvelope::new(assistant_message("m"))],
            &active,
            &legacy
        ),
        PortableHistoryStatus::Portable
    );
    assert_eq!(
        portable_history_status(&vec![opaque_compaction(Some("a"))], &active, &legacy),
        PortableHistoryStatus::MigrationRequired
    );
    assert_eq!(
        portable_history_status(&vec![opaque_compaction(None)], &active, &legacy),
        PortableHistoryStatus::BlockedByForeignOpaqueCompaction {
            source_profile_id: legacy.clone(),
            active_profile_id: Some("a".to_string()),
        }
    );
}

#[test]
fn preflight_refuses_what_projection_would_refuse() {
    let binding = ExecutionAuthBinding::Pooled(pooled("b", 1));
    let target = AccountTransitionTargetProfile::from_execution(None, &binding);
    let history = vec![opaque_compaction(Some("a"))];
    let required = preflight_account_transition(&history, &vec![true], &target)
        .ensure_ready(&target)
        .unwrap_err();
    assert_eq!(required.owner_profile_id.as_deref(), Some("a"));
    assert_eq!(required.target_profile_id.as_deref(), Some("b"));
    assert!(required.message().contains("a"));
    assert!(project_history_for_execution(None, &binding, history).is_err());
    let own = vec![opaque_compaction(Some("b"))];
    assert_eq!(
        preflight_account_transition(&own, &vec![true], &target).ensure_ready(&target),
        Ok(())
    );
    let (items, stats) = project_history_for_execution(None, &binding, own).unwrap();
    assert_eq!(items.len(), 1);
    assert_eq!(trace_projection(&binding, stats), None);
}

#[test]
fn a_projection_that_removed_something_is_traced() {
    let removed = AccountHistoryTransitionStats {
        cleared_response_ids: 2,
        ..AccountHistoryTransitionStats::default()
    };
    let pooled = ExecutionAuthBinding::Pooled(ExecutionAuthLease::from_account_lease(
        AccountLease {
            profile_id: "b".to_string(),
            generation: 4,
            auth_manager: 9,
        },
    ));
    let trace = trace_projection(&pooled, removed).unwrap();
    assert_eq!(
        (trace.target_profile_id.as_str(), trace.target_generation),
        ("b", 4)
    );
    assert_eq!(trace.stats, removed);
    let legacy = ExecutionAuthBinding::Pooled(ExecutionAuthLease::legacy(1));
    assert_eq!(
        trace_projection(&legacy, removed).unwrap().target_profile_id,
        "<legacy>"
    );
    let stock = trace_projection(&ExecutionAuthBinding::Stock, removed).unwrap();
    assert_eq!(
        (stock.target_profile_id.as_str(), stock.target_generation),
        ("<stock>", 0)
    );
}

#[test]
fn recorded_items_carry_the_provenance_of_their_turn() {
    let mut turn = TurnContext::default();
    let plain =
        record_conversation_items_with_execution_provenance(&turn, vec![assistant_message("m")]);
    assert_eq!(
        history_item_ownership(&plain[0]),
        HistoryItemOwnership::LegacyRootScoped
    );
    set_sampling_execution_provenance(&mut turn, pooled("a", 3));
    assert_eq!(
        sampling_execution_provenance(&turn).unwrap().lease(),
        &pooled("a", 3)
    );
    let stamped =
        record_conversation_items_with_execution_provenance(&turn, vec![assistant_message("m")]);
    assert_eq!(
        stamped,
        vec![envelope_from_execution(
            assistant_message("m"),
            &pooled("a", 3)
        )]
    );
}

#[test]
fn notice_stands_between_its_markers() {
    let notice = AccountTransitionToolOutputNotice;
    assert_eq!(
        notice.render(),
        "<account_transition_tool_output_notice>\nEncrypted tool output was omitted because it belongs to a different Codex execution account.\n</account_transition_tool_output_notice>"
    );
    assert_eq!(notice.role(), "developer");
    assert!(notice.requires_separate_message());
    assert_eq!(
        notice.content_kind(),
        ContentItemKind("account_pool.tool_output_omitted".to_string())
    );
}
