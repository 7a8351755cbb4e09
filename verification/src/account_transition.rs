//! Projection of persisted history into a request of another execution account.
//!
//! Durable history is never rewritten. Only the items that go into a request change, so the account
//! that produced them can still resume with all of its opaque state.
use vstd::prelude::*;

use crate::account_transition_notice::AccountTransitionToolOutputNotice;
use crate::execution_auth::ExecutionAuthLease;
use crate::history::AgentMessageInputContent;
use crate::history::CodexHarnessMetadata;
use crate::history::FunctionCallOutputBody;
use crate::history::FunctionCallOutputContentItem;
use crate::history::FunctionCallOutputPayload;
use crate::history::ResponseItem;
use crate::history::ResponseItemEnvelope;
use crate::portable_history;
use crate::portable_history::is_opaque_compaction;
use crate::seqs;
use crate::text;
use crate::text::copy_opt_text;
use crate::text::same_opt_text;
use crate::text::same_text;

verus! {

/// Stamps metadata with the execution identity that produced account-sensitive model state. A lease
/// of the stock login leaves it as it is.
pub fn stamp_execution_provenance(
    metadata: &mut Option<CodexHarnessMetadata>,
    lease: &ExecutionAuthLease,
)
    ensures
        *final(metadata) == stamped(*old(metadata), *lease),
{
    if let Some(profile_id) = lease.profile_id_owned() {
        let client_authored = match metadata {
            Some(existing) => existing.client_authored,
            None => false,
        };
        *metadata =
        Some(
            CodexHarnessMetadata {
                client_authored,
                execution_profile_id: Some(profile_id),
                execution_generation: Some(lease.generation()),
            },
        );
    }
}

/// Metadata after it was stamped with a lease.
pub open spec fn stamped(
    metadata: Option<CodexHarnessMetadata>,
    lease: ExecutionAuthLease,
) -> Option<CodexHarnessMetadata> {
    match lease.spec_profile_id() {
        Some(profile_id) => Some(
            CodexHarnessMetadata {
                client_authored: match metadata {
                    Some(existing) => existing.client_authored,
                    None => false,
                },
                execution_profile_id: Some(profile_id),
                execution_generation: Some(lease.spec_generation()),
            },
        ),
        None => metadata,
    }
}

/// The envelope of a freshly received model item that is about to enter durable history.
pub fn envelope_from_execution(item: ResponseItem, lease: &ExecutionAuthLease) -> (envelope:
    ResponseItemEnvelope)
    ensures
        envelope.item == item,
        envelope.metadata == stamped(None, *lease),
{
    let mut envelope = ResponseItemEnvelope::new(item);
    stamp_execution_provenance(&mut envelope.metadata, lease);
    envelope
}

/// Request-side ownership of one persisted history item.
#[derive(Clone, Debug, PartialEq, Eq)]
pub enum HistoryItemOwnership {
    /// Locally authored harness context that is independent of execution credentials.
    Portable,
    /// Model or tool state stamped with the exact execution identity that produced it.
    ExecutionScoped { profile_id: String, generation: Option<u64> },
    /// Unattributed model or server state from before execution provenance existed.
    LegacyRootScoped,
}

/// Who owns an item: the stamped profile if there is one; else nobody, for tools, compaction
/// triggers and messages of the user or the developer; else the root login.
pub open spec fn ownership(envelope: ResponseItemEnvelope) -> HistoryItemOwnership {
    if envelope.metadata is Some && envelope.metadata->0.execution_profile_id is Some {
        HistoryItemOwnership::ExecutionScoped {
            profile_id: envelope.metadata->0.execution_profile_id->0,
            generation: envelope.metadata->0.execution_generation,
        }
    } else {
        match envelope.item {
            ResponseItem::AdditionalTools { .. } | ResponseItem::CompactionTrigger { .. } =>
                HistoryItemOwnership::Portable,
            ResponseItem::Message { role, .. } => if role@ == "user"@ || role@ == "developer"@ {
                HistoryItemOwnership::Portable
            } else {
                HistoryItemOwnership::LegacyRootScoped
            },
            _ => HistoryItemOwnership::LegacyRootScoped,
        }
    }
}

pub fn history_item_ownership(envelope: &ResponseItemEnvelope) -> (owner: HistoryItemOwnership)
    ensures
        owner == ownership(*envelope),
{
    if let Some(metadata) = &envelope.metadata {
        if let Some(profile_id) = &metadata.execution_profile_id {
            return HistoryItemOwnership::ExecutionScoped {
                profile_id: profile_id.clone(),
                generation: metadata.execution_generation,
            };
        }
    }
    match &envelope.item {
        ResponseItem::AdditionalTools { .. } | ResponseItem::CompactionTrigger { .. } =>
            HistoryItemOwnership::Portable,
        ResponseItem::Message { role, .. } => if same_text(role, "user") || same_text(
            role,
            "developer",
        ) {
            HistoryItemOwnership::Portable
        } else {
            HistoryItemOwnership::LegacyRootScoped
        },
        _ => HistoryItemOwnership::LegacyRootScoped,
    }
}

/// What a projection removed.
#[derive(Clone, Copy, Debug, PartialEq, Eq, Structural)]
pub struct AccountHistoryTransitionStats {
    pub cleared_response_ids: usize,
    pub cleared_internal_metadata: usize,
    pub stripped_reasoning_blobs: usize,
    pub stripped_encrypted_function_args: usize,
    pub stripped_encrypted_tool_outputs: usize,
    pub dropped_encrypted_agent_messages: usize,
}

impl Default for AccountHistoryTransitionStats {
    fn default() -> (stats: Self)
        ensures
            stats == AccountHistoryTransitionStats::none(),
    {
        AccountHistoryTransitionStats {
            cleared_response_ids: 0,
            cleared_internal_metadata: 0,
            stripped_reasoning_blobs: 0,
            stripped_encrypted_function_args: 0,
            stripped_encrypted_tool_outputs: 0,
            dropped_encrypted_agent_messages: 0,
        }
    }
}

impl AccountHistoryTransitionStats {
    pub open spec fn none() -> Self {
        AccountHistoryTransitionStats {
            cleared_response_ids: 0,
            cleared_internal_metadata: 0,
            stripped_reasoning_blobs: 0,
            stripped_encrypted_function_args: 0,
            stripped_encrypted_tool_outputs: 0,
            dropped_encrypted_agent_messages: 0,
        }
    }
}

/// Drops the id and the Responses-side metadata of an item, and counts what was there.
pub fn clear_transport_affinity(
    item: &mut ResponseItem,
    stats: &mut AccountHistoryTransitionStats,
)
    ensures
        *final(item) == old(item).without_affinity(),
        *final(stats) == (AccountHistoryTransitionStats {
            cleared_response_ids: seqs::saturated(
                (old(stats).cleared_response_ids + id_count(*old(item))) as nat,
            ),
            cleared_internal_metadata: seqs::saturated(
                (old(stats).cleared_internal_metadata + passthrough_count(*old(item))) as nat,
            ),
            ..*old(stats)
        }),
{
    if item.id().is_some() {
        stats.cleared_response_ids = stats.cleared_response_ids.saturating_add(1);
        item.clear_id();
    }
    if item.internal_chat_message_metadata_passthrough().is_some() {
        item.clear_internal_chat_message_metadata_passthrough();
        stats.cleared_internal_metadata = stats.cleared_internal_metadata.saturating_add(1);
    }
    assert(item.spec_id() is None && item.spec_passthrough() is None);
    assert(*item == item.without_affinity());
}

/// 1 where the item has an id.
pub open spec fn id_count(item: ResponseItem) -> nat {
    if item.spec_id() is Some {
        1
    } else {
        0
    }
}

/// 1 where the item has Responses-side metadata.
pub open spec fn passthrough_count(item: ResponseItem) -> nat {
    if item.spec_passthrough() is Some {
        1
    } else {
        0
    }
}

/// The parts of an agent message that are readable text.
pub open spec fn readable_parts(content: Seq<AgentMessageInputContent>) -> Seq<
    AgentMessageInputContent,
> {
    content.filter(|part: AgentMessageInputContent| part is InputText)
}

/// The items of a tool output that are not encrypted.
pub open spec fn readable_outputs(items: Seq<FunctionCallOutputContentItem>) -> Seq<
    FunctionCallOutputContentItem,
> {
    items.filter(|item: FunctionCallOutputContentItem| !(item is EncryptedContent))
}

/// Number of encrypted items in a tool output.
pub open spec fn encrypted_output_count(output: FunctionCallOutputPayload) -> nat {
    match output.body {
        FunctionCallOutputBody::Text(_) => 0,
        FunctionCallOutputBody::ContentItems(items) => (items@.len() - readable_outputs(
            items@,
        ).len()) as nat,
    }
}

/// Whether `after` is `before` without encrypted items. Where nothing else was in it, a notice takes
/// its place, so that the call stays paired with an output.
pub open spec fn is_readable_form(
    before: FunctionCallOutputPayload,
    after: FunctionCallOutputPayload,
) -> bool {
    &&& after.success == before.success
    &&& match before.body {
        FunctionCallOutputBody::Text(_) => after.body == before.body,
        FunctionCallOutputBody::ContentItems(items) => if items@.len() > 0 && readable_outputs(
            items@,
        ).len() == 0 {
            after.body matches FunctionCallOutputBody::Text(notice) && notice@
                == AccountTransitionToolOutputNotice::text()
        } else {
            after.body matches FunctionCallOutputBody::ContentItems(kept) && kept@
                == readable_outputs(items@)
        },
    }
}

fn keep_readable_parts(content: Vec<AgentMessageInputContent>) -> (kept: Vec<
    AgentMessageInputContent,
>)
    ensures
        kept@ == readable_parts(content@),
{
    let mut kept: Vec<AgentMessageInputContent> = Vec::new();
    let ghost all = content@;
    assert(readable_parts(all.take(0)) =~= Seq::empty()) by {
        reveal(Seq::filter);
    }
    for part in it: content
        invariant
            it.seq() == all,
            kept@ == readable_parts(all.take(it.index())),
    {
        proof {
            assert(all.take(it.index() + 1).drop_last() =~= all.take(it.index()));
            reveal(Seq::filter);
        }
        let readable = match &part {
            AgentMessageInputContent::InputText { .. } => true,
            _ => false,
        };
        if readable {
            kept.push(part);
        }
    }
    assert(all.take(all.len() as int) =~= all);
    kept
}

fn keep_readable_outputs(items: Vec<FunctionCallOutputContentItem>) -> (kept: Vec<
    FunctionCallOutputContentItem,
>)
    ensures
        kept@ == readable_outputs(items@),
{
    let mut kept: Vec<FunctionCallOutputContentItem> = Vec::new();
    let ghost all = items@;
    assert(readable_outputs(all.take(0)) =~= Seq::empty()) by {
        reveal(Seq::filter);
    }
    for item in it: items
        invariant
            it.seq() == all,
            kept@ == readable_outputs(all.take(it.index())),
    {
        proof {
            assert(all.take(it.index() + 1).drop_last() =~= all.take(it.index()));
            reveal(Seq::filter);
        }
        let encrypted = match &item {
            FunctionCallOutputContentItem::EncryptedContent { .. } => true,
            _ => false,
        };
        if !encrypted {
            kept.push(item);
        }
    }
    assert(all.take(all.len() as int) =~= all);
    kept
}

/// Takes the encrypted items out of a tool output, and counts them.
pub fn sanitize_function_output(
    output: FunctionCallOutputPayload,
    stats: &mut AccountHistoryTransitionStats,
) -> (readable: FunctionCallOutputPayload)
    ensures
        is_readable_form(output, readable),
        *final(stats) == (AccountHistoryTransitionStats {
            stripped_encrypted_tool_outputs: seqs::saturated(
                (old(stats).stripped_encrypted_tool_outputs + encrypted_output_count(
                    output,
                )) as nat,
            ),
            ..*old(stats)
        }),
{
    match output.body {
        FunctionCallOutputBody::Text(text) => FunctionCallOutputPayload {
            body: FunctionCallOutputBody::Text(text),
            success: output.success,
        },
        FunctionCallOutputBody::ContentItems(items) => {
            let before: usize = items.len();
            let ghost all = items@;
            let kept = keep_readable_outputs(items);
            proof {
                all.lemma_filter_len(
                    |item: FunctionCallOutputContentItem| !(item is EncryptedContent),
                );
            }
            let removed: usize = before - kept.len();
            stats.stripped_encrypted_tool_outputs =
            stats.stripped_encrypted_tool_outputs.saturating_add(removed);
            if kept.len() == 0 && removed > 0 {
                FunctionCallOutputPayload {
                    body: FunctionCallOutputBody::Text(AccountTransitionToolOutputNotice.render()),
                    success: output.success,
                }
            } else {
                FunctionCallOutputPayload {
                    body: FunctionCallOutputBody::ContentItems(kept),
                    success: output.success,
                }
            }
        },
    }
}

/// Why a history cannot be projected.
#[derive(Clone, Debug, PartialEq, Eq)]
pub enum AccountHistoryTransitionError {
    /// Remote compaction is opaque. Dropping one that belongs to another account would erase the
    /// only surviving representation of earlier context.
    OpaqueCompaction { source_profile_id: Option<String>, target_profile_id: Option<String> },
}

impl AccountHistoryTransitionError {
    /// What is reported to the user.
    pub open spec fn message_text(self) -> Seq<char> {
        match self {
            AccountHistoryTransitionError::OpaqueCompaction {
                source_profile_id,
                target_profile_id,
            } => "cannot move opaque remote compaction from execution account "@ + text::text_or(
                source_profile_id,
                "<unknown>"@,
            ) + " to "@ + text::text_or(target_profile_id, "<legacy>"@)
                + "; create a portable compaction checkpoint before switching accounts"@,
        }
    }

    /// What is reported to the user.
    pub fn message(&self) -> (message: String)
        ensures
            message@ == self.message_text(),
    {
        match self {
            AccountHistoryTransitionError::OpaqueCompaction {
                source_profile_id,
                target_profile_id,
            } => {
                let mut message =
                    "cannot move opaque remote compaction from execution account ".to_owned();
                match source_profile_id {
                    Some(id) => message.append(id.as_str()),
                    None => message.append("<unknown>"),
                }
                message.append(" to ");
                match target_profile_id {
                    Some(id) => message.append(id.as_str()),
                    None => message.append("<legacy>"),
                }
                message.append(
                    "; create a portable compaction checkpoint before switching accounts",
                );
                message
            },
        }
    }
}

/// Whether an item of another account carries nothing readable and is left out: an agent message of
/// encrypted parts alone, reasoning with neither summary nor content, and compaction marks without
/// content.
pub open spec fn is_left_out(item: ResponseItem) -> bool {
    match item {
        ResponseItem::AgentMessage { content, .. } => content@.len() > 0 && readable_parts(
            content@,
        ).len() == 0,
        ResponseItem::Reasoning { summary, content, .. } => summary@.len() == 0 && !(content is Some
            && content->0@.len() > 0),
        ResponseItem::ContextCompaction { encrypted_content, .. } => encrypted_content is None,
        ResponseItem::CompactionTrigger { .. } => true,
        _ => false,
    }
}

/// Whether `after` is what another account may see of `before`: no id, no Responses-side metadata
/// and no encrypted content, and everything else as it was.
pub open spec fn is_foreign_form(before: ResponseItem, after: ResponseItem) -> bool {
    match before {
        ResponseItem::AgentMessage { content, payload, .. } => after matches ResponseItem::AgentMessage {
            id: None,
            content: kept,
            payload: same,
            internal_chat_message_metadata_passthrough: None,
        } && kept@ == readable_parts(content@) && same == payload,
        ResponseItem::Reasoning { summary, content, .. } => after == (ResponseItem::Reasoning {
            id: None,
            summary,
            content,
            encrypted_content: None,
            internal_chat_message_metadata_passthrough: None,
        }),
        ResponseItem::FunctionCall { name, namespace, arguments, call_id, .. } => after == (
        ResponseItem::FunctionCall {
            id: None,
            name,
            namespace,
            arguments,
            encrypted_function_args: None,
            call_id,
            internal_chat_message_metadata_passthrough: None,
        }),
        ResponseItem::FunctionCallOutput { call_id, name, namespace, output, .. } => {
            &&& after matches ResponseItem::FunctionCallOutput { output: readable, .. }
            &&& is_readable_form(output, readable)
            &&& after == (ResponseItem::FunctionCallOutput {
                id: None,
                call_id,
                name,
                namespace,
                output: readable,
                internal_chat_message_metadata_passthrough: None,
            })
        },
        ResponseItem::CustomToolCallOutput { payload, output, .. } => {
            &&& after matches ResponseItem::CustomToolCallOutput { output: readable, .. }
            &&& is_readable_form(output, readable)
            &&& after == (ResponseItem::CustomToolCallOutput {
                id: None,
                payload,
                output: readable,
                internal_chat_message_metadata_passthrough: None,
            })
        },
        _ => after == before.without_affinity(),
    }
}

/// 1 where the item is reasoning with an encrypted blob.
pub open spec fn reasoning_blob_count(item: ResponseItem) -> nat {
    match item {
        ResponseItem::Reasoning { encrypted_content, .. } => if encrypted_content is Some {
            1
        } else {
            0
        },
        _ => 0,
    }
}

/// 1 where the item is a function call with encrypted arguments.
pub open spec fn function_args_count(item: ResponseItem) -> nat {
    match item {
        ResponseItem::FunctionCall { encrypted_function_args, .. } => if encrypted_function_args
            is Some {
            1
        } else {
            0
        },
        _ => 0,
    }
}

/// Number of encrypted tool outputs in the item.
pub open spec fn tool_output_count(item: ResponseItem) -> nat {
    match item {
        ResponseItem::FunctionCallOutput { output, .. } => encrypted_output_count(output),
        ResponseItem::CustomToolCallOutput { output, .. } => encrypted_output_count(output),
        _ => 0,
    }
}

/// 1 where the item is an agent message that is left out.
pub open spec fn agent_message_count(item: ResponseItem) -> nat {
    if item is AgentMessage && is_left_out(item) {
        1
    } else {
        0
    }
}

/// Makes an item of another account fit for a request. The result is `None` where nothing readable
/// is left; an opaque compaction is an error, never dropped.
pub fn sanitize_foreign_item(
    item: ResponseItem,
    source_profile_id: &Option<String>,
    target_profile_id: &Option<String>,
    stats: &mut AccountHistoryTransitionStats,
) -> (projected: Result<Option<ResponseItem>, AccountHistoryTransitionError>)
    ensures
        match projected {
            Err(error) => portable_history::is_opaque(item) && error == (
            AccountHistoryTransitionError::OpaqueCompaction {
                source_profile_id: *source_profile_id,
                target_profile_id: *target_profile_id,
            }),
            Ok(None) => !portable_history::is_opaque(item) && is_left_out(item),
            Ok(Some(after)) => !portable_history::is_opaque(item) && !is_left_out(item) && is_foreign_form(
                item,
                after,
            ),
        },
        *final(stats) == (AccountHistoryTransitionStats {
            cleared_response_ids: seqs::saturated(
                (old(stats).cleared_response_ids + id_count(item)) as nat,
            ),
            cleared_internal_metadata: seqs::saturated(
                (old(stats).cleared_internal_metadata + passthrough_count(item)) as nat,
            ),
            stripped_reasoning_blobs: seqs::saturated(
                (old(stats).stripped_reasoning_blobs + reasoning_blob_count(item)) as nat,
            ),
            stripped_encrypted_function_args: seqs::saturated(
                (old(stats).stripped_encrypted_function_args + function_args_count(item)) as nat,
            ),
            stripped_encrypted_tool_outputs: seqs::saturated(
                (old(stats).stripped_encrypted_tool_outputs + tool_output_count(item)) as nat,
            ),
            dropped_encrypted_agent_messages: seqs::saturated(
                (old(stats).dropped_encrypted_agent_messages + agent_message_count(item)) as nat,
            ),
        }),
{
    let mut item = item;
    clear_transport_affinity(&mut item, stats);
    match item {
        ResponseItem::AgentMessage { content, payload, .. } => {
            let before: usize = content.len();
            let kept = keep_readable_parts(content);
            if kept.len() != before && kept.len() == 0 {
                stats.dropped_encrypted_agent_messages =
                stats.dropped_encrypted_agent_messages.saturating_add(1);
                return Ok(None);
            }
            Ok(
                Some(
                    ResponseItem::AgentMessage {
                        id: None,
                        content: kept,
                        payload,
                        internal_chat_message_metadata_passthrough: None,
                    },
                ),
            )
        },
        ResponseItem::Reasoning { summary, content, encrypted_content, .. } => {
            if encrypted_content.is_some() {
                stats.stripped_reasoning_blobs = stats.stripped_reasoning_blobs.saturating_add(1);
            }
            let has_readable_content = match &content {
                Some(content) => content.len() > 0,
                None => false,
            };
            if summary.len() == 0 && !has_readable_content {
                return Ok(None);
            }
            Ok(
                Some(
                    ResponseItem::Reasoning {
                        id: None,
                        summary,
                        content,
                        encrypted_content: None,
                        internal_chat_message_metadata_passthrough: None,
                    },
                ),
            )
        },
        ResponseItem::FunctionCall {
            name,
            namespace,
            arguments,
            encrypted_function_args,
            call_id,
            ..
        } => {
            if encrypted_function_args.is_some() {
                stats.stripped_encrypted_function_args =
                stats.stripped_encrypted_function_args.saturating_add(1);
            }
            Ok(
                Some(
                    ResponseItem::FunctionCall {
                        id: None,
                        name,
                        namespace,
                        arguments,
                        encrypted_function_args: None,
                        call_id,
                        internal_chat_message_metadata_passthrough: None,
                    },
                ),
            )
        },
        ResponseItem::FunctionCallOutput { call_id, name, namespace, output, .. } => {
            let readable = sanitize_function_output(output, stats);
            Ok(
                Some(
                    ResponseItem::FunctionCallOutput {
                        id: None,
                        call_id,
                        name,
                        namespace,
                        output: readable,
                        internal_chat_message_metadata_passthrough: None,
                    },
                ),
            )
        },
        ResponseItem::CustomToolCallOutput { payload, output, .. } => {
            let readable = sanitize_function_output(output, stats);
            Ok(
                Some(
                    ResponseItem::CustomToolCallOutput {
                        id: None,
                        payload,
                        output: readable,
                        internal_chat_message_metadata_passthrough: None,
                    },
                ),
            )
        },
        ResponseItem::CompactionTrigger { .. } => Ok(None),
        other => {
            if is_opaque_compaction(&other) {
                return Err(
                    AccountHistoryTransitionError::OpaqueCompaction {
                        source_profile_id: copy_opt_text(source_profile_id),
                        target_profile_id: copy_opt_text(target_profile_id),
                    },
                );
            }
            match &other {
                ResponseItem::ContextCompaction { .. } => Ok(None),
                _ => Ok(Some(other)),
            }
        },
    }
}

/// How persisted model history is projected into a request after an execution account transition.
#[derive(Clone, Debug, PartialEq, Eq)]
pub struct AccountHistoryTransition {
    pub target_profile_id: Option<String>,
    pub target_generation: u64,
    /// Owner of items from before execution provenance: the root profile, where the pool was
    /// bootstrapped from an existing login.
    pub legacy_unattributed_profile_id: Option<String>,
}

impl AccountHistoryTransition {
    /// The profile that an account-scoped item came from.
    pub open spec fn source(self, envelope: ResponseItemEnvelope) -> Option<String> {
        match ownership(envelope) {
            HistoryItemOwnership::Portable => None,
            HistoryItemOwnership::ExecutionScoped { profile_id, .. } => Some(profile_id),
            HistoryItemOwnership::LegacyRootScoped => self.legacy_unattributed_profile_id,
        }
    }

    /// Whether an item is scoped to an account other than the target.
    pub open spec fn is_foreign(self, envelope: ResponseItemEnvelope) -> bool {
        &&& !(ownership(envelope) is Portable)
        &&& text::opt_text(self.source(envelope)) != text::opt_text(self.target_profile_id)
    }

    /// Whether an item is the target account's own, from another generation.
    pub open spec fn is_stale(self, envelope: ResponseItemEnvelope) -> bool {
        &&& !self.is_foreign(envelope)
        &&& ownership(envelope) matches HistoryItemOwnership::ExecutionScoped {
            generation: Some(generation),
            ..
        }
        &&& generation != self.target_generation
    }

    /// Whether `after` is what the target account may see of an item: a foreign item without what
    /// is scoped to its account, a stale one without transport affinity, any other as it is.
    pub open spec fn is_projection(
        self,
        envelope: ResponseItemEnvelope,
        after: ResponseItem,
    ) -> bool {
        if self.is_foreign(envelope) {
            is_foreign_form(envelope.item, after)
        } else if self.is_stale(envelope) {
            after == envelope.item.without_affinity()
        } else {
            after == envelope.item
        }
    }

    /// The items that stay in a request.
    pub open spec fn kept(self, history: Seq<ResponseItemEnvelope>) -> Seq<ResponseItemEnvelope> {
        history.filter(
            |envelope: ResponseItemEnvelope|
                !(self.is_foreign(envelope) && is_left_out(envelope.item)),
        )
    }

    /// Position of the first opaque compaction of another account.
    pub open spec fn blocker(self, history: Seq<ResponseItemEnvelope>) -> Option<int> {
        seqs::first_where(
            history,
            |envelope: ResponseItemEnvelope|
                self.is_foreign(envelope) && portable_history::is_opaque(envelope.item),
        )
    }

    /// What a projection of the whole history removes.
    pub open spec fn stats_of(
        self,
        history: Seq<ResponseItemEnvelope>,
    ) -> AccountHistoryTransitionStats {
        AccountHistoryTransitionStats {
            cleared_response_ids: seqs::saturated(
                seqs::sum_by(
                    history,
                    |envelope: ResponseItemEnvelope|
                        if self.is_foreign(envelope) || self.is_stale(envelope) {
                            id_count(envelope.item)
                        } else {
                            0
                        },
                ),
            ),
            cleared_internal_metadata: seqs::saturated(
                seqs::sum_by(
                    history,
                    |envelope: ResponseItemEnvelope|
                        if self.is_foreign(envelope) || self.is_stale(envelope) {
                            passthrough_count(envelope.item)
                        } else {
                            0
                        },
                ),
            ),
            stripped_reasoning_blobs: seqs::saturated(
                seqs::sum_by(
                    history,
                    |envelope: ResponseItemEnvelope|
                        if self.is_foreign(envelope) {
                            reasoning_blob_count(envelope.item)
                        } else {
                            0
                        },
                ),
            ),
            stripped_encrypted_function_args: seqs::saturated(
                seqs::sum_by(
                    history,
                    |envelope: ResponseItemEnvelope|
                        if self.is_foreign(envelope) {
                            function_args_count(envelope.item)
                        } else {
                            0
                        },
                ),
            ),
            stripped_encrypted_tool_outputs: seqs::saturated(
                seqs::sum_by(
                    history,
                    |envelope: ResponseItemEnvelope|
                        if self.is_foreign(envelope) {
                            tool_output_count(envelope.item)
                        } else {
                            0
                        },
                ),
            ),
            dropped_encrypted_agent_messages: seqs::saturated(
                seqs::sum_by(
                    history,
                    |envelope: ResponseItemEnvelope|
                        if self.is_foreign(envelope) {
                            agent_message_count(envelope.item)
                        } else {
                            0
                        },
                ),
            ),
        }
    }

    /// The transition to the stock login, which owns what no profile is stamped on.
    pub fn stock() -> (transition: Self)
        ensures
            transition == (AccountHistoryTransition {
                target_profile_id: None,
                target_generation: 0,
                legacy_unattributed_profile_id: None,
            }),
    {
        AccountHistoryTransition {
            target_profile_id: None,
            target_generation: 0,
            legacy_unattributed_profile_id: None,
        }
    }

    /// The transition to a leased pool account.
    pub fn pooled(
        lease: &ExecutionAuthLease,
        legacy_unattributed_profile_id: Option<String>,
    ) -> (transition: Self)
        ensures
            transition == (AccountHistoryTransition {
                target_profile_id: lease.spec_profile_id(),
                target_generation: lease.spec_generation(),
                legacy_unattributed_profile_id,
            }),
    {
        AccountHistoryTransition {
            target_profile_id: lease.profile_id_owned(),
            target_generation: lease.generation(),
            legacy_unattributed_profile_id,
        }
    }

    /// Whether some item of a history is another account's, or of another generation.
    pub open spec fn needs_projection(self, history: Seq<ResponseItemEnvelope>) -> bool {
        exists|i: int|
            0 <= i < history.len() && (self.is_foreign(#[trigger] history[i]) || self.is_stale(
                history[i],
            ))
    }

    /// Whether a projection would change any item of the history.
    pub fn history_requires_projection(&self, history: &Vec<ResponseItemEnvelope>) -> (required:
        bool)
        ensures
            required == self.needs_projection(history@),
    {
        let mut i: usize = 0;
        while i < history.len()
            invariant
                i <= history@.len(),
                forall|j: int|
                    0 <= j < i ==> !self.is_foreign(#[trigger] history@[j]) && !self.is_stale(
                        history@[j],
                    ),
            decreases history@.len() - i,
        {
            let required = match history_item_ownership(&history[i]) {
                HistoryItemOwnership::Portable => false,
                HistoryItemOwnership::ExecutionScoped { profile_id, generation } => {
                    let foreign = !same_opt_text(&Some(profile_id), &self.target_profile_id);
                    let stale = match generation {
                        Some(generation) => generation != self.target_generation,
                        None => false,
                    };
                    foreign || stale
                },
                HistoryItemOwnership::LegacyRootScoped => !same_opt_text(
                    &self.legacy_unattributed_profile_id,
                    &self.target_profile_id,
                ),
            };
            if required {
                assert(self.is_foreign(history@[i as int]) || self.is_stale(history@[i as int]));
                return true;
            }
            i = i + 1;
        }
        false
    }

    /// The counters after one more item was projected.
    pub open spec fn counted(
        self,
        stats: AccountHistoryTransitionStats,
        envelope: ResponseItemEnvelope,
    ) -> AccountHistoryTransitionStats {
        let item = envelope.item;
        if self.is_foreign(envelope) {
            AccountHistoryTransitionStats {
                cleared_response_ids: seqs::saturated(
                    (stats.cleared_response_ids + id_count(item)) as nat,
                ),
                cleared_internal_metadata: seqs::saturated(
                    (stats.cleared_internal_metadata + passthrough_count(item)) as nat,
                ),
                stripped_reasoning_blobs: seqs::saturated(
                    (stats.stripped_reasoning_blobs + reasoning_blob_count(item)) as nat,
                ),
                stripped_encrypted_function_args: seqs::saturated(
                    (stats.stripped_encrypted_function_args + function_args_count(item)) as nat,
                ),
                stripped_encrypted_tool_outputs: seqs::saturated(
                    (stats.stripped_encrypted_tool_outputs + tool_output_count(item)) as nat,
                ),
                dropped_encrypted_agent_messages: seqs::saturated(
                    (stats.dropped_encrypted_agent_messages + agent_message_count(item)) as nat,
                ),
            }
        } else if self.is_stale(envelope) {
            AccountHistoryTransitionStats {
                cleared_response_ids: seqs::saturated(
                    (stats.cleared_response_ids + id_count(item)) as nat,
                ),
                cleared_internal_metadata: seqs::saturated(
                    (stats.cleared_internal_metadata + passthrough_count(item)) as nat,
                ),
                ..stats
            }
        } else {
            stats
        }
    }

    /// Projects one item; `None` where it is left out of the request.
    fn project_item(
        &self,
        envelope: ResponseItemEnvelope,
        stats: &mut AccountHistoryTransitionStats,
    ) -> (projected: Result<Option<ResponseItem>, AccountHistoryTransitionError>)
        ensures
            match projected {
                Err(error) => {
                    &&& self.is_foreign(envelope)
                    &&& portable_history::is_opaque(envelope.item)
                    &&& error == (AccountHistoryTransitionError::OpaqueCompaction {
                        source_profile_id: self.source(envelope),
                        target_profile_id: self.target_profile_id,
                    })
                },
                Ok(after) => {
                    &&& !(self.is_foreign(envelope) && portable_history::is_opaque(envelope.item))
                    &&& after is None <==> self.is_foreign(envelope) && is_left_out(envelope.item)
                    &&& after is Some ==> self.is_projection(envelope, after->0)
                },
            },
            *final(stats) == self.counted(*old(stats), envelope),
    {
        let (source_profile_id, source_generation) = match history_item_ownership(&envelope) {
            HistoryItemOwnership::Portable => {
                return Ok(Some(envelope.into_item()));
            },
            HistoryItemOwnership::ExecutionScoped { profile_id, generation } => (
                Some(profile_id),
                generation,
            ),
            HistoryItemOwnership::LegacyRootScoped => (
                copy_opt_text(&self.legacy_unattributed_profile_id),
                None,
            ),
        };
        if same_opt_text(&source_profile_id, &self.target_profile_id) {
            let mut item = envelope.into_item();
            let stale = match source_generation {
                Some(generation) => generation != self.target_generation,
                None => false,
            };
            if stale {
                clear_transport_affinity(&mut item, stats);
            }
            return Ok(Some(item));
        }
        sanitize_foreign_item(
            envelope.into_item(),
            &source_profile_id,
            &self.target_profile_id,
            stats,
        )
    }

    /// Converts annotated history into items that the target account may be sent.
    ///
    /// The target's own items keep encrypted reasoning and other server state. Items of another
    /// account keep what is readable. An opaque compaction of another account is an error.
    pub fn prepare_for_request(&self, history: Vec<ResponseItemEnvelope>) -> (prepared: Result<
        (Vec<ResponseItem>, AccountHistoryTransitionStats),
        AccountHistoryTransitionError,
    >)
        ensures
            match prepared {
                Ok((items, stats)) => {
                    &&& self.blocker(history@) is None
                    &&& items@.len() == self.kept(history@).len()
                    &&& forall|i: int|
                        0 <= i < items@.len() ==> self.is_projection(
                            self.kept(history@)[i],
                            #[trigger] items@[i],
                        )
                    &&& stats == self.stats_of(history@)
                },
                Err(error) => {
                    &&& self.blocker(history@) is Some
                    &&& error == (AccountHistoryTransitionError::OpaqueCompaction {
                        source_profile_id: self.source(history@[self.blocker(history@)->0]),
                        target_profile_id: self.target_profile_id,
                    })
                },
            },
    {
        let mut stats = AccountHistoryTransitionStats::default();
        let mut output: Vec<ResponseItem> = Vec::new();
        let ghost all = history@;
        let ghost blocks = |envelope: ResponseItemEnvelope|
            self.is_foreign(envelope) && portable_history::is_opaque(envelope.item);
        proof {
            reveal(Seq::filter);
            assert(self.kept(all.take(0)) =~= Seq::empty());
        }
        for envelope in it: history
            invariant
                it.seq() == all,
                blocks == (|envelope: ResponseItemEnvelope|
                    self.is_foreign(envelope) && portable_history::is_opaque(envelope.item)),
                forall|j: int| 0 <= j < it.index() ==> !blocks(#[trigger] all[j]),
                output@.len() == self.kept(all.take(it.index())).len(),
                forall|i: int|
                    0 <= i < output@.len() ==> self.is_projection(
                        self.kept(all.take(it.index()))[i],
                        #[trigger] output@[i],
                    ),
                stats == self.stats_of(all.take(it.index())),
        {
            let ghost before = all.take(it.index());
            let ghost after = all.take(it.index() + 1);
            proof {
                assert(after.drop_last() =~= before);
                assert(after.last() == envelope);
                reveal(Seq::filter);
            }
            match self.project_item(envelope, &mut stats) {
                Ok(Some(item)) => {
                    output.push(item);
                },
                Ok(None) => {},
                Err(error) => {
                    proof {
                        seqs::lemma_first_where_is(all, blocks, it.index() as int);
                    }
                    return Err(error);
                },
            }
        }
        proof {
            assert(all.take(all.len() as int) =~= all);
            seqs::lemma_first_where(all, blocks);
        }
        Ok((output, stats))
    }
}

/// Whether an item carries content that is encrypted for one account.
pub open spec fn carries_encrypted_content(item: ResponseItem) -> bool {
    match item {
        ResponseItem::AgentMessage { content, .. } => exists|i: int|
            0 <= i < content@.len() && (#[trigger] content@[i]) is EncryptedContent,
        ResponseItem::Reasoning { encrypted_content, .. } => encrypted_content is Some,
        ResponseItem::FunctionCall { encrypted_function_args, .. } => encrypted_function_args
            is Some,
        ResponseItem::FunctionCallOutput { output, .. } => output_carries_encrypted_content(output),
        ResponseItem::CustomToolCallOutput { output, .. } => output_carries_encrypted_content(
            output,
        ),
        _ => portable_history::is_opaque(item),
    }
}

/// Whether a tool output carries encrypted items.
pub open spec fn output_carries_encrypted_content(output: FunctionCallOutputPayload) -> bool {
    output.body matches FunctionCallOutputBody::ContentItems(items) && exists|i: int|
        0 <= i < items@.len() && (#[trigger] items@[i]) is EncryptedContent
}

/// A history without foreign or stale items goes into a request exactly as it is persisted.
pub proof fn law_own_history_is_sent_unchanged(
    transition: AccountHistoryTransition,
    history: Seq<ResponseItemEnvelope>,
)
    requires
        forall|i: int|
            0 <= i < history.len() ==> !transition.is_foreign(#[trigger] history[i])
                && !transition.is_stale(history[i]),
    ensures
        transition.blocker(history) is None,
        transition.kept(history) == history,
        transition.stats_of(history) == AccountHistoryTransitionStats::none(),
        forall|i: int, after: ResponseItem|
            0 <= i < history.len() ==> (#[trigger] transition.is_projection(history[i], after)
                <==> after == history[i].item),
    decreases history.len(),
{
    reveal(Seq::filter);
    if history.len() > 0 {
        let rest = history.drop_last();
        assert forall|i: int| 0 <= i < rest.len() implies !transition.is_foreign(
            #[trigger] rest[i],
        ) && !transition.is_stale(rest[i]) by {
            assert(rest[i] == history[i]);
        }
        law_own_history_is_sent_unchanged(transition, rest);
        assert(!transition.is_foreign(history[history.len() - 1]));
        assert(!transition.is_stale(history[history.len() - 1]));
        assert(transition.kept(history) =~= history);
    }
}

/// Nothing that is scoped to another account enters a request: a foreign item that is sent has no
/// id, no Responses-side metadata and no encrypted content.
pub proof fn law_foreign_items_lose_account_state(
    transition: AccountHistoryTransition,
    envelope: ResponseItemEnvelope,
    after: ResponseItem,
)
    requires
        transition.is_foreign(envelope),
        !portable_history::is_opaque(envelope.item),
        transition.is_projection(envelope, after),
    ensures
        after.spec_id() is None,
        after.spec_passthrough() is None,
        !carries_encrypted_content(after),
{
    broadcast use vstd::seq_lib::group_filter_ensures;

    match after {
        ResponseItem::AgentMessage { content, .. } => {
            assert forall|i: int| 0 <= i < content@.len() implies !((#[trigger] content@[i])
                is EncryptedContent) by {
                assert(content@.contains(content@[i]));
            }
        },
        ResponseItem::FunctionCallOutput { output, .. } => {
            lemma_readable_form_is_not_encrypted(
                envelope.item->FunctionCallOutput_output,
                output,
            );
        },
        ResponseItem::CustomToolCallOutput { output, .. } => {
            lemma_readable_form_is_not_encrypted(
                envelope.item->CustomToolCallOutput_output,
                output,
            );
        },
        _ => {},
    }
}

/// The notice that takes the place of an encrypted output is a text with something in it.
pub proof fn lemma_notice_is_not_empty()
    ensures
        AccountTransitionToolOutputNotice::text().len() > 0,
{
    reveal_strlit("<account_transition_tool_output_notice>");
    assert("<account_transition_tool_output_notice>"@.len() > 0);
}

/// What is left of a tool output without its encrypted items is not encrypted.
pub proof fn lemma_readable_form_is_not_encrypted(
    before: FunctionCallOutputPayload,
    after: FunctionCallOutputPayload,
)
    requires
        is_readable_form(before, after),
    ensures
        !output_carries_encrypted_content(after),
{
    broadcast use vstd::seq_lib::group_filter_ensures;

    match after.body {
        FunctionCallOutputBody::ContentItems(items) => {
            assert forall|i: int| 0 <= i < items@.len() implies !((#[trigger] items@[i])
                is EncryptedContent) by {
                assert(items@.contains(items@[i]));
            }
        },
        _ => {},
    }
}

/// Locally authored context is always sent as it is, whatever the target account.
pub proof fn law_portable_items_are_untouched(
    transition: AccountHistoryTransition,
    envelope: ResponseItemEnvelope,
    after: ResponseItem,
)
    requires
        ownership(envelope) is Portable,
    ensures
        transition.is_projection(envelope, after) <==> after == envelope.item,
        transition.kept(seq![envelope]) == seq![envelope],
{
    reveal_with_fuel(Seq::filter, 2);
    assert(seq![envelope].drop_last() =~= Seq::empty());
    assert(transition.kept(seq![envelope]) =~= seq![envelope]);
}

/// The target account's own items keep everything but transport affinity, encrypted content
/// included.
pub proof fn law_own_items_keep_encrypted_content(
    transition: AccountHistoryTransition,
    envelope: ResponseItemEnvelope,
    after: ResponseItem,
)
    requires
        !transition.is_foreign(envelope),
        transition.is_projection(envelope, after),
    ensures
        after.without_affinity() == envelope.item.without_affinity(),
        carries_encrypted_content(after) == carries_encrypted_content(envelope.item),
{
}

/// An item that was stamped with a lease is unchanged in a request on that lease: an account that
/// becomes active again resumes with all of its opaque state.
pub proof fn law_stamped_item_returns_to_its_lease(
    item: ResponseItem,
    lease: ExecutionAuthLease,
    legacy: Option<String>,
    after: ResponseItem,
)
    requires
        lease.spec_profile_id() is Some,
    ensures
        ({
            let transition = AccountHistoryTransition {
                target_profile_id: lease.spec_profile_id(),
                target_generation: lease.spec_generation(),
                legacy_unattributed_profile_id: legacy,
            };
            let envelope = ResponseItemEnvelope { item, metadata: stamped(None, lease) };
            &&& !transition.is_foreign(envelope)
            &&& !transition.is_stale(envelope)
            &&& transition.is_projection(envelope, after) <==> after == item
        }),
{
}

/// A tool output is never left out, and it keeps its call id, so that no call loses its pair.
pub proof fn law_tool_outputs_stay_paired(
    transition: AccountHistoryTransition,
    envelope: ResponseItemEnvelope,
    after: ResponseItem,
)
    requires
        envelope.item is FunctionCallOutput,
        transition.is_projection(envelope, after),
    ensures
        !is_left_out(envelope.item),
        after is FunctionCallOutput,
        after->FunctionCallOutput_call_id == envelope.item->FunctionCallOutput_call_id,
{
}

/// An item of a pool account bears the account's profile and generation, whatever it bore before;
/// what is not about accounts stays. A lease of the stock login leaves no mark.
pub proof fn law_stamp_names_the_lease(
    metadata: Option<CodexHarnessMetadata>,
    lease: ExecutionAuthLease,
)
    ensures
        lease.account() is None ==> stamped(metadata, lease) == metadata,
        lease.account() is Some ==> {
            let mark = stamped(metadata, lease);
            &&& mark is Some
            &&& mark->0.execution_profile_id == Some(lease.account()->0.profile_id)
            &&& mark->0.execution_generation == Some(lease.account()->0.generation)
            &&& metadata is Some ==> mark->0.client_authored == metadata->0.client_authored
            &&& metadata is None ==> !mark->0.client_authored
        },
{
}

/// A refused projection names the account that sealed the history and the one that was to go on.
#[verifier::rlimit(40)]
pub proof fn law_refusal_names_both_accounts(
    source_profile_id: Option<String>,
    target_profile_id: Option<String>,
)
    ensures
        ({
            let message = (AccountHistoryTransitionError::OpaqueCompaction {
                source_profile_id,
                target_profile_id,
            }).message_text();
            &&& source_profile_id is Some ==> text::holds(message, source_profile_id->0@)
            &&& target_profile_id is Some ==> text::holds(message, target_profile_id->0@)
        }),
{
    let message = (AccountHistoryTransitionError::OpaqueCompaction {
        source_profile_id,
        target_profile_id,
    }).message_text();
    let start = "cannot move opaque remote compaction from execution account "@;
    let source = text::text_or(source_profile_id, "<unknown>"@);
    let target = text::text_or(target_profile_id, "<legacy>"@);
    let end = "; create a portable compaction checkpoint before switching accounts"@;
    text::lemma_holds(start, source, " to "@ + target + end);
    assert(message =~= start + source + (" to "@ + target + end));
    text::lemma_holds(start + source + " to "@, target, end);
    assert(message =~= start + source + " to "@ + target + end);
}

} // verus!
