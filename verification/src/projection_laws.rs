//! What the projection of history is for: an account gets all that it can read of what was said and
//! done before, and nothing that only another account can read.
//!
//! The notions in which this is stated (which account an item came from, what of it can be read, what
//! is sealed) are those of the items themselves.
use vstd::prelude::*;

use crate::account_transition;
use crate::account_transition::AccountHistoryTransition;
use crate::history::AgentMessageInputContent;
use crate::history::FunctionCallOutputBody;
use crate::history::FunctionCallOutputContentItem;
use crate::history::FunctionCallOutputPayload;
use crate::history::ResponseItem;
use crate::history::ResponseItemEnvelope;
use crate::portable_history;
use crate::seqs;
use crate::text;

verus! {

/// Whether two items are of the same kind.
pub open spec fn same_kind(a: ResponseItem, b: ResponseItem) -> bool {
    &&& (a is AdditionalTools) == (b is AdditionalTools)
    &&& (a is Message) == (b is Message)
    &&& (a is AgentMessage) == (b is AgentMessage)
    &&& (a is Reasoning) == (b is Reasoning)
    &&& (a is LocalShellCall) == (b is LocalShellCall)
    &&& (a is FunctionCall) == (b is FunctionCall)
    &&& (a is ToolSearchCall) == (b is ToolSearchCall)
    &&& (a is FunctionCallOutput) == (b is FunctionCallOutput)
    &&& (a is CustomToolCall) == (b is CustomToolCall)
    &&& (a is CustomToolCallOutput) == (b is CustomToolCallOutput)
    &&& (a is ToolSearchOutput) == (b is ToolSearchOutput)
    &&& (a is WebSearchCall) == (b is WebSearchCall)
    &&& (a is ImageGenerationCall) == (b is ImageGenerationCall)
    &&& (a is Compaction) == (b is Compaction)
    &&& (a is CompactionTrigger) == (b is CompactionTrigger)
    &&& (a is ContextCompaction) == (b is ContextCompaction)
    &&& (a is Other) == (b is Other)
}

/// Whether two items agree in everything but id and Responses-side metadata.
pub open spec fn agree_but_for_affinity(a: ResponseItem, b: ResponseItem) -> bool {
    &&& same_kind(a, b)
    &&& a is AdditionalTools ==> a->AdditionalTools_payload == b->AdditionalTools_payload
    &&& a is Message ==> {
        &&& a->Message_role == b->Message_role
        &&& a->Message_content == b->Message_content
        &&& a->Message_phase == b->Message_phase
    }
    &&& a is AgentMessage ==> {
        &&& a->AgentMessage_content == b->AgentMessage_content
        &&& a->AgentMessage_payload == b->AgentMessage_payload
    }
    &&& a is Reasoning ==> {
        &&& a->Reasoning_summary == b->Reasoning_summary
        &&& a->Reasoning_content == b->Reasoning_content
        &&& a->Reasoning_encrypted_content == b->Reasoning_encrypted_content
    }
    &&& a is LocalShellCall ==> a->LocalShellCall_payload == b->LocalShellCall_payload
    &&& a is FunctionCall ==> {
        &&& a->FunctionCall_name == b->FunctionCall_name
        &&& a->FunctionCall_namespace == b->FunctionCall_namespace
        &&& a->FunctionCall_arguments == b->FunctionCall_arguments
        &&& a->FunctionCall_encrypted_function_args == b->FunctionCall_encrypted_function_args
        &&& a->FunctionCall_call_id == b->FunctionCall_call_id
    }
    &&& a is ToolSearchCall ==> a->ToolSearchCall_payload == b->ToolSearchCall_payload
    &&& a is FunctionCallOutput ==> {
        &&& a->FunctionCallOutput_call_id == b->FunctionCallOutput_call_id
        &&& a->FunctionCallOutput_name == b->FunctionCallOutput_name
        &&& a->FunctionCallOutput_namespace == b->FunctionCallOutput_namespace
        &&& a->FunctionCallOutput_output == b->FunctionCallOutput_output
    }
    &&& a is CustomToolCall ==> a->CustomToolCall_payload == b->CustomToolCall_payload
    &&& a is CustomToolCallOutput ==> {
        &&& a->CustomToolCallOutput_payload == b->CustomToolCallOutput_payload
        &&& a->CustomToolCallOutput_output == b->CustomToolCallOutput_output
    }
    &&& a is ToolSearchOutput ==> a->ToolSearchOutput_payload == b->ToolSearchOutput_payload
    &&& a is WebSearchCall ==> a->WebSearchCall_payload == b->WebSearchCall_payload
    &&& a is ImageGenerationCall ==> {
        &&& a->ImageGenerationCall_payload == b->ImageGenerationCall_payload
    }
    &&& a is Compaction ==> a->Compaction_encrypted_content == b->Compaction_encrypted_content
    &&& a is ContextCompaction ==> {
        &&& a->ContextCompaction_encrypted_content == b->ContextCompaction_encrypted_content
    }
}

/// Whether an item has neither id nor Responses-side metadata.
pub open spec fn has_no_affinity(item: ResponseItem) -> bool {
    &&& item is AdditionalTools ==> {
        &&& item->AdditionalTools_id is None
        &&& item->AdditionalTools_internal_chat_message_metadata_passthrough is None
    }
    &&& item is Message ==> {
        &&& item->Message_id is None
        &&& item->Message_internal_chat_message_metadata_passthrough is None
    }
    &&& item is AgentMessage ==> {
        &&& item->AgentMessage_id is None
        &&& item->AgentMessage_internal_chat_message_metadata_passthrough is None
    }
    &&& item is Reasoning ==> {
        &&& item->Reasoning_id is None
        &&& item->Reasoning_internal_chat_message_metadata_passthrough is None
    }
    &&& item is LocalShellCall ==> {
        &&& item->LocalShellCall_id is None
        &&& item->LocalShellCall_internal_chat_message_metadata_passthrough is None
    }
    &&& item is FunctionCall ==> {
        &&& item->FunctionCall_id is None
        &&& item->FunctionCall_internal_chat_message_metadata_passthrough is None
    }
    &&& item is ToolSearchCall ==> {
        &&& item->ToolSearchCall_id is None
        &&& item->ToolSearchCall_internal_chat_message_metadata_passthrough is None
    }
    &&& item is FunctionCallOutput ==> {
        &&& item->FunctionCallOutput_id is None
        &&& item->FunctionCallOutput_internal_chat_message_metadata_passthrough is None
    }
    &&& item is CustomToolCall ==> {
        &&& item->CustomToolCall_id is None
        &&& item->CustomToolCall_internal_chat_message_metadata_passthrough is None
    }
    &&& item is CustomToolCallOutput ==> {
        &&& item->CustomToolCallOutput_id is None
        &&& item->CustomToolCallOutput_internal_chat_message_metadata_passthrough is None
    }
    &&& item is ToolSearchOutput ==> {
        &&& item->ToolSearchOutput_id is None
        &&& item->ToolSearchOutput_internal_chat_message_metadata_passthrough is None
    }
    &&& item is WebSearchCall ==> {
        &&& item->WebSearchCall_id is None
        &&& item->WebSearchCall_internal_chat_message_metadata_passthrough is None
    }
    &&& item is ImageGenerationCall ==> {
        &&& item->ImageGenerationCall_id is None
        &&& item->ImageGenerationCall_internal_chat_message_metadata_passthrough is None
    }
    &&& item is Compaction ==> {
        &&& item->Compaction_id is None
        &&& item->Compaction_internal_chat_message_metadata_passthrough is None
    }
    &&& item is CompactionTrigger ==> {
        &&& item->CompactionTrigger_id is None
        &&& item->CompactionTrigger_internal_chat_message_metadata_passthrough is None
    }
    &&& item is ContextCompaction ==> {
        &&& item->ContextCompaction_id is None
        &&& item->ContextCompaction_internal_chat_message_metadata_passthrough is None
    }
}

/// The account that an item is stamped with.
pub open spec fn stamp(envelope: ResponseItemEnvelope) -> Option<Seq<char>> {
    match envelope.metadata {
        Some(metadata) => text::opt_text(metadata.execution_profile_id),
        None => None,
    }
}

/// Whether an item was authored by the user or the harness, not by a model or a tool.
pub open spec fn is_local_context(item: ResponseItem) -> bool {
    ||| item is AdditionalTools
    ||| item is CompactionTrigger
    ||| item matches ResponseItem::Message { role, .. } && (role@ == "user"@ || role@
        == "developer"@)
}

/// Whether an item came from an account other than the one that the request is for. An item without
/// a stamp is from before stamps: the user's, or that of the account that there was then.
pub open spec fn came_from_elsewhere(
    transition: AccountHistoryTransition,
    envelope: ResponseItemEnvelope,
) -> bool {
    match stamp(envelope) {
        Some(id) => text::opt_text(transition.target_profile_id) != Some(id),
        None => !is_local_context(envelope.item) && text::opt_text(
            transition.legacy_unattributed_profile_id,
        ) != text::opt_text(transition.target_profile_id),
    }
}

/// Whether an item is stamped with an earlier or later activation of an account than the present one.
pub open spec fn is_of_another_generation(
    transition: AccountHistoryTransition,
    envelope: ResponseItemEnvelope,
) -> bool {
    &&& stamp(envelope) is Some
    &&& envelope.metadata->0.execution_generation is Some
    &&& envelope.metadata->0.execution_generation->0 != transition.target_generation
}

/// Whether an item is a checkpoint whose content only one account can read.
pub open spec fn is_sealed_checkpoint(item: ResponseItem) -> bool {
    ||| item matches ResponseItem::Compaction { encrypted_content, .. } && encrypted_content@.len()
        > 0
    ||| item matches ResponseItem::ContextCompaction { encrypted_content, .. }
        && encrypted_content is Some
}

/// Whether a tool output has a part that only one account can read.
pub open spec fn output_is_sealed(output: FunctionCallOutputPayload) -> bool {
    output.body matches FunctionCallOutputBody::ContentItems(items) && exists|i: int|
        0 <= i < items@.len() && (#[trigger] items@[i]) is EncryptedContent
}

/// Whether an item has a part that only one account can read.
pub open spec fn is_sealed(item: ResponseItem) -> bool {
    ||| is_sealed_checkpoint(item)
    ||| item matches ResponseItem::AgentMessage { content, .. } && exists|i: int|
        0 <= i < content@.len() && (#[trigger] content@[i]) is EncryptedContent
    ||| item matches ResponseItem::Reasoning { encrypted_content, .. } && encrypted_content is Some
    ||| item matches ResponseItem::FunctionCall { encrypted_function_args, .. }
        && encrypted_function_args is Some
    ||| item matches ResponseItem::FunctionCallOutput { output, .. } && output_is_sealed(output)
    ||| item matches ResponseItem::CustomToolCallOutput { output, .. } && output_is_sealed(output)
}

/// Whether there is nothing in an item that another account could read.
pub open spec fn has_nothing_readable(item: ResponseItem) -> bool {
    ||| item is CompactionTrigger
    ||| item is ContextCompaction
    ||| item matches ResponseItem::AgentMessage { content, .. } && forall|i: int|
        0 <= i < content@.len() ==> (#[trigger] content@[i]) is EncryptedContent
    ||| item matches ResponseItem::Reasoning { summary, content, .. } && summary@.len() == 0 && (
    content is Some ==> content->0@.len() == 0)
}

/// A part of a tool output that any account can read.
pub open spec fn is_open_output() -> spec_fn(FunctionCallOutputContentItem) -> bool {
    |item: FunctionCallOutputContentItem| item is InputText || item is InputImage
}

/// A part of an agent message that any account can read.
pub open spec fn is_open_part() -> spec_fn(AgentMessageInputContent) -> bool {
    |part: AgentMessageInputContent| part is InputText
}

/// Whether `after` still holds all that any account can read of a tool output. An output of which
/// nothing can be read is replaced by a text that says so.
pub open spec fn output_keeps_what_is_readable(
    before: FunctionCallOutputPayload,
    after: FunctionCallOutputPayload,
) -> bool {
    &&& after.success == before.success
    &&& match before.body {
        FunctionCallOutputBody::Text(text) => after.body == FunctionCallOutputBody::Text(text),
        FunctionCallOutputBody::ContentItems(items) => match after.body {
            FunctionCallOutputBody::ContentItems(kept) => {
                &&& seqs::selects_exactly(items@, kept@, is_open_output())
                &&& kept@.len() > 0 || items@.len() == 0
            },
            FunctionCallOutputBody::Text(notice) => {
                &&& items@.len() > 0
                &&& forall|i: int|
                    0 <= i < items@.len() ==> (#[trigger] items@[i]) is EncryptedContent
                &&& notice@.len() > 0
            },
        },
    }
}

/// Whether `after` is the same item and still holds all that any account can read of `before`.
pub open spec fn keeps_what_is_readable(before: ResponseItem, after: ResponseItem) -> bool {
    &&& same_kind(before, after)
    &&& before is AdditionalTools ==> {
        &&& before->AdditionalTools_payload == after->AdditionalTools_payload
    }
    &&& before is Message ==> {
        &&& before->Message_role == after->Message_role
        &&& before->Message_content == after->Message_content
        &&& before->Message_phase == after->Message_phase
    }
    &&& before is AgentMessage ==> {
        &&& seqs::selects_exactly(
            before->AgentMessage_content@,
            after->AgentMessage_content@,
            is_open_part(),
        )
        &&& before->AgentMessage_payload == after->AgentMessage_payload
    }
    &&& before is Reasoning ==> {
        &&& before->Reasoning_summary == after->Reasoning_summary
        &&& before->Reasoning_content == after->Reasoning_content
    }
    &&& before is LocalShellCall ==> before->LocalShellCall_payload == after->LocalShellCall_payload
    &&& before is FunctionCall ==> {
        &&& before->FunctionCall_name == after->FunctionCall_name
        &&& before->FunctionCall_namespace == after->FunctionCall_namespace
        &&& before->FunctionCall_arguments == after->FunctionCall_arguments
        &&& before->FunctionCall_call_id == after->FunctionCall_call_id
    }
    &&& before is ToolSearchCall ==> before->ToolSearchCall_payload == after->ToolSearchCall_payload
    &&& before is FunctionCallOutput ==> {
        &&& before->FunctionCallOutput_call_id == after->FunctionCallOutput_call_id
        &&& before->FunctionCallOutput_name == after->FunctionCallOutput_name
        &&& before->FunctionCallOutput_namespace == after->FunctionCallOutput_namespace
        &&& output_keeps_what_is_readable(
            before->FunctionCallOutput_output,
            after->FunctionCallOutput_output,
        )
    }
    &&& before is CustomToolCall ==> before->CustomToolCall_payload == after->CustomToolCall_payload
    &&& before is CustomToolCallOutput ==> {
        &&& before->CustomToolCallOutput_payload == after->CustomToolCallOutput_payload
        &&& output_keeps_what_is_readable(
            before->CustomToolCallOutput_output,
            after->CustomToolCallOutput_output,
        )
    }
    &&& before is ToolSearchOutput ==> {
        &&& before->ToolSearchOutput_payload == after->ToolSearchOutput_payload
    }
    &&& before is WebSearchCall ==> before->WebSearchCall_payload == after->WebSearchCall_payload
    &&& before is ImageGenerationCall ==> {
        &&& before->ImageGenerationCall_payload == after->ImageGenerationCall_payload
    }
}

/// The id, the Responses-side metadata and the rest of an item are separate parts that make it up:
/// the rest has neither of the other two, and items that agree in all three parts are the same.
pub proof fn law_parts_of_an_item(a: ResponseItem, b: ResponseItem)
    ensures
        agree_but_for_affinity(a, a.without_affinity()),
        has_no_affinity(a.without_affinity()),
        a.spec_id() is None && a.spec_passthrough() is None <==> has_no_affinity(a),
        a.without_affinity() == b.without_affinity() && a.spec_id() == b.spec_id()
            && a.spec_passthrough() == b.spec_passthrough() <==> a == b,
{
}

/// Whether an item came from elsewhere is told by its stamp, or by its kind where it has none.
proof fn lemma_elsewhere_is_foreign(
    transition: AccountHistoryTransition,
    envelope: ResponseItemEnvelope,
)
    ensures
        transition.is_foreign(envelope) == came_from_elsewhere(transition, envelope),
        transition.is_stale(envelope) == (!came_from_elsewhere(transition, envelope)
            && is_of_another_generation(transition, envelope)),
{
}

proof fn lemma_output_keeps(before: FunctionCallOutputPayload, after: FunctionCallOutputPayload)
    requires
        account_transition::is_readable_form(before, after),
    ensures
        output_keeps_what_is_readable(before, after),
        !output_is_sealed(after),
{
    account_transition::lemma_readable_form_is_not_encrypted(before, after);
    if let FunctionCallOutputBody::ContentItems(items) = before.body {
        let open = |item: FunctionCallOutputContentItem| !(item is EncryptedContent);
        let from = seqs::lemma_filter_selects(items@, open);
        assert forall|i: int| 0 <= i < items@.len() implies (is_open_output()(#[trigger] items@[i])
            <==> from.contains(i)) by {
            assert(open(items@[i]) <==> from.contains(i));
        }
        assert(seqs::selects_exactly(
            items@,
            account_transition::readable_outputs(items@),
            is_open_output(),
        ));
        if account_transition::readable_outputs(items@).len() == 0 {
            assert forall|i: int| 0 <= i < items@.len() implies (#[trigger] items@[i])
                is EncryptedContent by {
                assert(open(items@[i]) <==> from.contains(i));
            }
            account_transition::lemma_notice_is_not_empty();
        }
    }
}

/// What a foreign item becomes keeps all that is readable and nothing that is sealed.
proof fn lemma_foreign_form_keeps(before: ResponseItem, after: ResponseItem)
    requires
        account_transition::is_foreign_form(before, after),
        !account_transition::is_left_out(before),
        !portable_history::is_opaque(before),
    ensures
        keeps_what_is_readable(before, after),
        !is_sealed(after),
        has_no_affinity(after),
{
    match before {
        ResponseItem::AgentMessage { content, .. } => {
            let open = |part: AgentMessageInputContent| part is InputText;
            let from = seqs::lemma_filter_selects(content@, open);
            assert forall|i: int| 0 <= i < content@.len() implies (is_open_part()(
                #[trigger] content@[i],
            ) <==> from.contains(i)) by {
                assert(open(content@[i]) <==> from.contains(i));
            }
            let kept = after->AgentMessage_content@;
            assert(seqs::is_selection(content@, kept, from));
            assert forall|k: int| 0 <= k < kept.len() implies !((#[trigger] kept[k])
                is EncryptedContent) by {
                assert(kept[k] == content@[from[k]]);
                assert(from.contains(from[k]));
                assert(open(content@[from[k]]));
            }
        },
        ResponseItem::FunctionCallOutput { output, .. } => {
            lemma_output_keeps(output, after->FunctionCallOutput_output);
        },
        ResponseItem::CustomToolCallOutput { output, .. } => {
            lemma_output_keeps(output, after->CustomToolCallOutput_output);
        },
        _ => {
            law_parts_of_an_item(before, after);
        },
    }
}

proof fn lemma_left_out_is_unreadable(item: ResponseItem)
    requires
        account_transition::is_left_out(item),
    ensures
        has_nothing_readable(item),
{
    if let ResponseItem::AgentMessage { content, .. } = item {
        let open = |part: AgentMessageInputContent| part is InputText;
        let from = seqs::lemma_filter_selects(content@, open);
        assert forall|i: int| 0 <= i < content@.len() implies (#[trigger] content@[i])
            is EncryptedContent by {
            assert(open(content@[i]) <==> from.contains(i));
        }
    }
}

/// What is prepared for a request is the history, item by item and in its order. Each prepared item is
/// of the same kind as the one that it came from and holds all that any account can read of it; in
/// particular every tool call and every tool output of either kind is there, paired as before. Only
/// items of another account that hold nothing readable are left out. An item of another account has
/// neither id nor metadata, and no part that only that account can read. An item of the account itself
/// is as it was, but for id and metadata where it is of another generation.
///
/// The result is the position in the history that each prepared item came from.
pub proof fn law_projection_keeps_everything_readable(
    transition: AccountHistoryTransition,
    history: Seq<ResponseItemEnvelope>,
    items: Seq<ResponseItem>,
) -> (from: Seq<int>)
    requires
        transition.blocker(history) is None,
        items.len() == transition.kept(history).len(),
        forall|i: int|
            0 <= i < items.len() ==> transition.is_projection(
                transition.kept(history)[i],
                #[trigger] items[i],
            ),
    ensures
        from.len() == items.len(),
        seqs::is_increasing(from, history.len()),
        forall|j: int|
            0 <= j < items.len() ==> same_kind(history[from[j]].item, #[trigger] items[j]),
        forall|j: int|
            0 <= j < items.len() && came_from_elsewhere(transition, history[from[j]])
                ==> keeps_what_is_readable(history[from[j]].item, #[trigger] items[j])
                && has_no_affinity(items[j]) && !is_sealed(items[j]),
        forall|j: int|
            0 <= j < items.len() && !came_from_elsewhere(transition, history[from[j]]) ==> (
            if is_of_another_generation(transition, history[from[j]]) {
                agree_but_for_affinity(history[from[j]].item, #[trigger] items[j])
                    && has_no_affinity(items[j])
            } else {
                items[j] == history[from[j]].item
            }),
        forall|i: int|
            0 <= i < history.len() && !from.contains(i) ==> came_from_elsewhere(
                transition,
                #[trigger] history[i],
            ) && has_nothing_readable(history[i].item),
{
    let stays = |envelope: ResponseItemEnvelope|
        !(transition.is_foreign(envelope) && account_transition::is_left_out(envelope.item));
    let blocks = |envelope: ResponseItemEnvelope|
        transition.is_foreign(envelope) && portable_history::is_opaque(envelope.item);
    let from = seqs::lemma_filter_selects(history, stays);
    seqs::lemma_first_where(history, blocks);
    assert forall|j: int| 0 <= j < items.len() implies {
        let envelope = history[from[j]];
        &&& same_kind(envelope.item, #[trigger] items[j])
        &&& came_from_elsewhere(transition, envelope) ==> keeps_what_is_readable(
            envelope.item,
            items[j],
        ) && has_no_affinity(items[j]) && !is_sealed(items[j])
        &&& !came_from_elsewhere(transition, envelope) ==> (if is_of_another_generation(
            transition,
            envelope,
        ) {
            agree_but_for_affinity(envelope.item, items[j]) && has_no_affinity(items[j])
        } else {
            items[j] == envelope.item
        })
    } by {
        let envelope = history[from[j]];
        assert(transition.kept(history)[j] == envelope);
        assert(from.contains(from[j]));
        assert(stays(envelope));
        assert(!blocks(history[from[j]]));
        lemma_elsewhere_is_foreign(transition, envelope);
        law_parts_of_an_item(envelope.item, items[j]);
        if transition.is_foreign(envelope) {
            lemma_foreign_form_keeps(envelope.item, items[j]);
        }
    }
    assert forall|i: int| 0 <= i < history.len() && !from.contains(i) implies came_from_elsewhere(
        transition,
        #[trigger] history[i],
    ) && has_nothing_readable(history[i].item) by {
        assert(!stays(history[i]));
        lemma_elsewhere_is_foreign(transition, history[i]);
        lemma_left_out_is_unreadable(history[i].item);
    }
    from
}

/// A history is refused exactly where it holds a checkpoint that only another account can read, and
/// the first such checkpoint is the one that is named.
pub proof fn law_only_sealed_checkpoints_are_refused(
    transition: AccountHistoryTransition,
    history: Seq<ResponseItemEnvelope>,
)
    ensures
        match transition.blocker(history) {
            Some(i) => {
                &&& 0 <= i < history.len()
                &&& is_sealed_checkpoint(history[i].item)
                &&& came_from_elsewhere(transition, history[i])
                &&& text::opt_text(transition.source(history[i])) == (match stamp(history[i]) {
                    Some(id) => Some(id),
                    None => text::opt_text(transition.legacy_unattributed_profile_id),
                })
                &&& forall|j: int|
                    0 <= j < i ==> !(is_sealed_checkpoint((#[trigger] history[j]).item)
                        && came_from_elsewhere(transition, history[j]))
            },
            None => forall|j: int|
                0 <= j < history.len() ==> !(is_sealed_checkpoint((#[trigger] history[j]).item)
                    && came_from_elsewhere(transition, history[j])),
        },
{
    let blocks = |envelope: ResponseItemEnvelope|
        transition.is_foreign(envelope) && portable_history::is_opaque(envelope.item);
    seqs::lemma_first_where(history, blocks);
    assert forall|j: int| 0 <= j < history.len() implies blocks(#[trigger] history[j]) == (
    is_sealed_checkpoint(history[j].item) && came_from_elsewhere(transition, history[j])) by {
        lemma_elsewhere_is_foreign(transition, history[j]);
    }
}

/// Number of parts of a tool output that only one account can read.
pub open spec fn sealed_parts(items: Seq<FunctionCallOutputContentItem>) -> nat
    decreases items.len(),
{
    if items.len() == 0 {
        0
    } else {
        sealed_parts(items.drop_last()) + if items.last() is EncryptedContent {
            1nat
        } else {
            0
        }
    }
}

proof fn lemma_sealed_parts(items: Seq<FunctionCallOutputContentItem>)
    ensures
        sealed_parts(items) == items.len() - account_transition::readable_outputs(items).len(),
    decreases items.len(),
{
    reveal(Seq::filter);
    if items.len() > 0 {
        lemma_sealed_parts(items.drop_last());
    }
}

/// Number of sealed parts in the output that an item carries.
pub open spec fn sealed_output_parts(item: ResponseItem) -> nat {
    match item {
        ResponseItem::FunctionCallOutput { output, .. } => match output.body {
            FunctionCallOutputBody::ContentItems(items) => sealed_parts(items@),
            FunctionCallOutputBody::Text(_) => 0,
        },
        ResponseItem::CustomToolCallOutput { output, .. } => match output.body {
            FunctionCallOutputBody::ContentItems(items) => sealed_parts(items@),
            FunctionCallOutputBody::Text(_) => 0,
        },
        _ => 0,
    }
}

/// A counter after `n` more, which stops where it is full.
pub open spec fn grown(counter: usize, n: nat) -> usize {
    if counter + n <= usize::MAX {
        (counter + n) as usize
    } else {
        usize::MAX
    }
}

/// 1 where something is so.
pub open spec fn once(is_so: bool) -> nat {
    if is_so {
        1
    } else {
        0
    }
}

/// The statistics of a projection count, item by item, what it takes away. From an item of another
/// account: its id, its metadata, its encrypted reasoning, arguments and output parts, and the item
/// itself where it is an agent message of sealed parts alone. From an own item of another
/// generation: id and metadata. From any other item: nothing.
#[verifier::rlimit(40)]
pub proof fn law_statistics_count_what_is_taken_away(
    transition: AccountHistoryTransition,
    history: Seq<ResponseItemEnvelope>,
    next: ResponseItemEnvelope,
)
    ensures
        ({
            let before = transition.stats_of(history);
            let after = transition.stats_of(history.push(next));
            let item = next.item;
            let elsewhere = came_from_elsewhere(transition, next);
            let moved = elsewhere || is_of_another_generation(transition, next);
            &&& after.cleared_response_ids == grown(
                before.cleared_response_ids,
                once(moved && item.spec_id() is Some),
            )
            &&& after.cleared_internal_metadata == grown(
                before.cleared_internal_metadata,
                once(moved && item.spec_passthrough() is Some),
            )
            &&& after.stripped_reasoning_blobs == grown(
                before.stripped_reasoning_blobs,
                once(elsewhere && item is Reasoning && item->Reasoning_encrypted_content is Some),
            )
            &&& after.stripped_encrypted_function_args == grown(
                before.stripped_encrypted_function_args,
                once(
                    elsewhere && item is FunctionCall && item->FunctionCall_encrypted_function_args
                        is Some,
                ),
            )
            &&& after.stripped_encrypted_tool_outputs == grown(
                before.stripped_encrypted_tool_outputs,
                once(elsewhere) * sealed_output_parts(item),
            )
            &&& after.dropped_encrypted_agent_messages == grown(
                before.dropped_encrypted_agent_messages,
                once(
                    elsewhere && item is AgentMessage && item->AgentMessage_content@.len() > 0
                        && has_nothing_readable(item),
                ),
            )
        }),
        ({
            let nothing = transition.stats_of(Seq::empty());
            &&& nothing.cleared_response_ids == 0
            &&& nothing.cleared_internal_metadata == 0
            &&& nothing.stripped_reasoning_blobs == 0
            &&& nothing.stripped_encrypted_function_args == 0
            &&& nothing.stripped_encrypted_tool_outputs == 0
            &&& nothing.dropped_encrypted_agent_messages == 0
        }),
{
    let item = next.item;
    let longer = history.push(next);
    assert(longer.drop_last() =~= history);
    assert(longer.last() == next);
    lemma_elsewhere_is_foreign(transition, next);
    if let ResponseItem::FunctionCallOutput { output, .. } = item {
        if let FunctionCallOutputBody::ContentItems(items) = output.body {
            lemma_sealed_parts(items@);
        }
    }
    if let ResponseItem::CustomToolCallOutput { output, .. } = item {
        if let FunctionCallOutputBody::ContentItems(items) = output.body {
            lemma_sealed_parts(items@);
        }
    }
    if let ResponseItem::AgentMessage { content, .. } = item {
        let parts = content@;
        let from = seqs::lemma_filter_selects(
            parts,
            |part: AgentMessageInputContent| part is InputText,
        );
        if account_transition::readable_parts(parts).len() == 0 {
            assert forall|i: int| 0 <= i < parts.len() implies (
            #[trigger] parts[i]) is EncryptedContent by {
                assert(from.len() == 0);
            }
        } else {
            assert(parts[from[0]] is InputText);
        }
    }
}

/// A history needs projection exactly where some item came from another account or from another
/// generation; one that does not is sent as it is.
pub proof fn law_projection_is_needed_for_what_came_from_elsewhere(
    transition: AccountHistoryTransition,
    history: Seq<ResponseItemEnvelope>,
    i: int,
)
    ensures
        0 <= i < history.len() && (came_from_elsewhere(transition, history[i])
            || is_of_another_generation(transition, history[i])) ==> transition.needs_projection(
            history,
        ),
        (forall|j: int|
            0 <= j < history.len() ==> !came_from_elsewhere(transition, #[trigger] history[j])
                && !is_of_another_generation(transition, history[j]))
            ==> !transition.needs_projection(history),
{
    if 0 <= i < history.len() {
        lemma_elsewhere_is_foreign(transition, history[i]);
        assert(history[i] == history[i]);
    }
    if transition.needs_projection(history) {
        let j = choose|j: int|
            0 <= j < history.len() && (transition.is_foreign(#[trigger] history[j])
                || transition.is_stale(history[j]));
        lemma_elsewhere_is_foreign(transition, history[j]);
        assert(history[j] == history[j]);
    }
}

} // verus!
