//! Conversation history as it is persisted: model and tool items, each with optional harness
//! metadata that says which execution account produced it.
use vstd::prelude::*;

verus! {

/// Kind of one content item, as annotated by the harness.
#[derive(Clone, Debug, PartialEq, Eq)]
pub struct ContentItemKind(pub String);

/// Responses-side metadata that travels with an item.
#[derive(Clone, Debug, PartialEq, Eq)]
pub struct InternalChatMessageMetadataPassthrough {
    pub turn_id: Option<String>,
    pub content_item_kinds: Option<Vec<ContentItemKind>>,
}

#[derive(Clone, Debug, PartialEq, Eq)]
pub enum ContentItem {
    InputText { text: String },
    InputImage { image_url: String },
    OutputText { text: String },
}

#[derive(Clone, Debug, PartialEq, Eq)]
pub enum AgentMessageInputContent {
    InputText { text: String },
    EncryptedContent { encrypted_content: String },
}

#[derive(Clone, Debug, PartialEq, Eq)]
pub enum ReasoningItemReasoningSummary {
    SummaryText { text: String },
}

#[derive(Clone, Debug, PartialEq, Eq)]
pub enum ReasoningItemContent {
    ReasoningText { text: String },
    Text { text: String },
}

#[derive(Clone, Debug, PartialEq, Eq)]
pub enum FunctionCallOutputContentItem {
    InputText { text: String },
    InputImage { image_url: String },
    EncryptedContent { encrypted_content: String },
}

#[derive(Clone, Debug, PartialEq, Eq)]
pub enum FunctionCallOutputBody {
    Text(String),
    ContentItems(Vec<FunctionCallOutputContentItem>),
}

#[derive(Clone, Debug, PartialEq, Eq)]
pub struct FunctionCallOutputPayload {
    pub body: FunctionCallOutputBody,
    pub success: Option<bool>,
}

impl FunctionCallOutputPayload {
    /// An output made of content items, with no success flag.
    pub fn from_content_items(items: Vec<FunctionCallOutputContentItem>) -> (payload: Self)
        ensures
            payload.body == FunctionCallOutputBody::ContentItems(items),
            payload.success is None,
    {
        FunctionCallOutputPayload {
            body: FunctionCallOutputBody::ContentItems(items),
            success: None,
        }
    }
}

/// One item of model history. Fields that no rule of this library reads are carried as the raw text
/// of the item in `payload`.
#[derive(Clone, Debug, PartialEq, Eq)]
pub enum ResponseItem {
    AdditionalTools {
        id: Option<String>,
        payload: String,
        internal_chat_message_metadata_passthrough: Option<InternalChatMessageMetadataPassthrough>,
    },
    Message {
        id: Option<String>,
        role: String,
        content: Vec<ContentItem>,
        phase: Option<String>,
        internal_chat_message_metadata_passthrough: Option<InternalChatMessageMetadataPassthrough>,
    },
    AgentMessage {
        id: Option<String>,
        content: Vec<AgentMessageInputContent>,
        payload: String,
        internal_chat_message_metadata_passthrough: Option<InternalChatMessageMetadataPassthrough>,
    },
    Reasoning {
        id: Option<String>,
        summary: Vec<ReasoningItemReasoningSummary>,
        content: Option<Vec<ReasoningItemContent>>,
        encrypted_content: Option<String>,
        internal_chat_message_metadata_passthrough: Option<InternalChatMessageMetadataPassthrough>,
    },
    LocalShellCall {
        id: Option<String>,
        payload: String,
        internal_chat_message_metadata_passthrough: Option<InternalChatMessageMetadataPassthrough>,
    },
    FunctionCall {
        id: Option<String>,
        name: String,
        namespace: Option<String>,
        arguments: String,
        encrypted_function_args: Option<Vec<String>>,
        call_id: String,
        internal_chat_message_metadata_passthrough: Option<InternalChatMessageMetadataPassthrough>,
    },
    ToolSearchCall {
        id: Option<String>,
        payload: String,
        internal_chat_message_metadata_passthrough: Option<InternalChatMessageMetadataPassthrough>,
    },
    FunctionCallOutput {
        id: Option<String>,
        call_id: Option<String>,
        name: Option<String>,
        namespace: Option<String>,
        output: FunctionCallOutputPayload,
        internal_chat_message_metadata_passthrough: Option<InternalChatMessageMetadataPassthrough>,
    },
    CustomToolCall {
        id: Option<String>,
        payload: String,
        internal_chat_message_metadata_passthrough: Option<InternalChatMessageMetadataPassthrough>,
    },
    CustomToolCallOutput {
        id: Option<String>,
        payload: String,
        output: FunctionCallOutputPayload,
        internal_chat_message_metadata_passthrough: Option<InternalChatMessageMetadataPassthrough>,
    },
    ToolSearchOutput {
        id: Option<String>,
        payload: String,
        internal_chat_message_metadata_passthrough: Option<InternalChatMessageMetadataPassthrough>,
    },
    WebSearchCall {
        id: Option<String>,
        payload: String,
        internal_chat_message_metadata_passthrough: Option<InternalChatMessageMetadataPassthrough>,
    },
    ImageGenerationCall {
        id: Option<String>,
        payload: String,
        internal_chat_message_metadata_passthrough: Option<InternalChatMessageMetadataPassthrough>,
    },
    Compaction {
        id: Option<String>,
        encrypted_content: String,
        internal_chat_message_metadata_passthrough: Option<InternalChatMessageMetadataPassthrough>,
    },
    CompactionTrigger {
        id: Option<String>,
        internal_chat_message_metadata_passthrough: Option<InternalChatMessageMetadataPassthrough>,
    },
    ContextCompaction {
        id: Option<String>,
        encrypted_content: Option<String>,
        internal_chat_message_metadata_passthrough: Option<InternalChatMessageMetadataPassthrough>,
    },
    Other,
}

/// History-only metadata of an item. It is never sent to the Responses API.
#[derive(Clone, Debug, PartialEq, Eq)]
pub struct CodexHarnessMetadata {
    pub client_authored: bool,
    pub execution_profile_id: Option<String>,
    pub execution_generation: Option<u64>,
}

impl Default for CodexHarnessMetadata {
    fn default() -> (metadata: Self)
        ensures
            metadata == (CodexHarnessMetadata {
                client_authored: false,
                execution_profile_id: None,
                execution_generation: None,
            }),
    {
        CodexHarnessMetadata {
            client_authored: false,
            execution_profile_id: None,
            execution_generation: None,
        }
    }
}

/// A persisted item together with its harness metadata.
#[derive(Clone, Debug, PartialEq, Eq)]
pub struct ResponseItemEnvelope {
    pub item: ResponseItem,
    pub metadata: Option<CodexHarnessMetadata>,
}

impl ResponseItemEnvelope {
    /// An item without metadata.
    pub fn new(item: ResponseItem) -> (envelope: Self)
        ensures
            envelope.item == item,
            envelope.metadata is None,
    {
        ResponseItemEnvelope { item, metadata: None }
    }

    pub fn into_item(self) -> (item: ResponseItem)
        ensures
            item == self.item,
    {
        self.item
    }
}

impl ResponseItem {
    /// The Responses id of the item.
    pub open spec fn spec_id(self) -> Option<String> {
        match self {
            ResponseItem::AdditionalTools { id, .. }
            | ResponseItem::Message { id, .. }
            | ResponseItem::AgentMessage { id, .. }
            | ResponseItem::Reasoning { id, .. }
            | ResponseItem::LocalShellCall { id, .. }
            | ResponseItem::FunctionCall { id, .. }
            | ResponseItem::ToolSearchCall { id, .. }
            | ResponseItem::FunctionCallOutput { id, .. }
            | ResponseItem::CustomToolCall { id, .. }
            | ResponseItem::CustomToolCallOutput { id, .. }
            | ResponseItem::ToolSearchOutput { id, .. }
            | ResponseItem::WebSearchCall { id, .. }
            | ResponseItem::ImageGenerationCall { id, .. }
            | ResponseItem::Compaction { id, .. }
            | ResponseItem::CompactionTrigger { id, .. }
            | ResponseItem::ContextCompaction { id, .. } => id,
            ResponseItem::Other => None,
        }
    }

    /// The Responses-side metadata of the item.
    pub open spec fn spec_passthrough(self) -> Option<InternalChatMessageMetadataPassthrough> {
        match self {
            ResponseItem::AdditionalTools { internal_chat_message_metadata_passthrough: m, .. }
            | ResponseItem::Message { internal_chat_message_metadata_passthrough: m, .. }
            | ResponseItem::AgentMessage { internal_chat_message_metadata_passthrough: m, .. }
            | ResponseItem::Reasoning { internal_chat_message_metadata_passthrough: m, .. }
            | ResponseItem::LocalShellCall { internal_chat_message_metadata_passthrough: m, .. }
            | ResponseItem::FunctionCall { internal_chat_message_metadata_passthrough: m, .. }
            | ResponseItem::ToolSearchCall { internal_chat_message_metadata_passthrough: m, .. }
            | ResponseItem::FunctionCallOutput { internal_chat_message_metadata_passthrough: m, .. }
            | ResponseItem::CustomToolCall { internal_chat_message_metadata_passthrough: m, .. }
            | ResponseItem::CustomToolCallOutput { internal_chat_message_metadata_passthrough: m, .. }
            | ResponseItem::ToolSearchOutput { internal_chat_message_metadata_passthrough: m, .. }
            | ResponseItem::WebSearchCall { internal_chat_message_metadata_passthrough: m, .. }
            | ResponseItem::ImageGenerationCall { internal_chat_message_metadata_passthrough: m, .. }
            | ResponseItem::Compaction { internal_chat_message_metadata_passthrough: m, .. }
            | ResponseItem::CompactionTrigger { internal_chat_message_metadata_passthrough: m, .. }
            | ResponseItem::ContextCompaction { internal_chat_message_metadata_passthrough: m, .. } => m,
            ResponseItem::Other => None,
        }
    }

    /// The same item with neither id nor Responses-side metadata.
    pub open spec fn without_affinity(self) -> ResponseItem {
        match self {
            ResponseItem::AdditionalTools { payload, .. } => ResponseItem::AdditionalTools {
                id: None,
                payload,
                internal_chat_message_metadata_passthrough: None,
            },
            ResponseItem::Message { role, content, phase, .. } => ResponseItem::Message {
                id: None,
                role,
                content,
                phase,
                internal_chat_message_metadata_passthrough: None,
            },
            ResponseItem::AgentMessage { content, payload, .. } => ResponseItem::AgentMessage {
                id: None,
                content,
                payload,
                internal_chat_message_metadata_passthrough: None,
            },
            ResponseItem::Reasoning { summary, content, encrypted_content, .. } => ResponseItem::Reasoning {
                id: None,
                summary,
                content,
                encrypted_content,
                internal_chat_message_metadata_passthrough: None,
            },
            ResponseItem::LocalShellCall { payload, .. } => ResponseItem::LocalShellCall {
                id: None,
                payload,
                internal_chat_message_metadata_passthrough: None,
            },
            ResponseItem::FunctionCall { name, namespace, arguments, encrypted_function_args, call_id, .. } => ResponseItem::FunctionCall {
                id: None,
                name,
                namespace,
                arguments,
                encrypted_function_args,
                call_id,
                internal_chat_message_metadata_passthrough: None,
            },
            ResponseItem::ToolSearchCall { payload, .. } => ResponseItem::ToolSearchCall {
                id: None,
                payload,
                internal_chat_message_metadata_passthrough: None,
            },
            ResponseItem::FunctionCallOutput { call_id, name, namespace, output, .. } => ResponseItem::FunctionCallOutput {
                id: None,
                call_id,
                name,
                namespace,
                output,
                internal_chat_message_metadata_passthrough: None,
            },
            ResponseItem::CustomToolCall { payload, .. } => ResponseItem::CustomToolCall {
                id: None,
                payload,
                internal_chat_message_metadata_passthrough: None,
            },
            ResponseItem::CustomToolCallOutput { payload, output, .. } => ResponseItem::CustomToolCallOutput {
                id: None,
                payload,
                output,
                internal_chat_message_metadata_passthrough: None,
            },
            ResponseItem::ToolSearchOutput { payload, .. } => ResponseItem::ToolSearchOutput {
                id: None,
                payload,
                internal_chat_message_metadata_passthrough: None,
            },
            ResponseItem::WebSearchCall { payload, .. } => ResponseItem::WebSearchCall {
                id: None,
                payload,
                internal_chat_message_metadata_passthrough: None,
            },
            ResponseItem::ImageGenerationCall { payload, .. } => ResponseItem::ImageGenerationCall {
                id: None,
                payload,
                internal_chat_message_metadata_passthrough: None,
            },
            ResponseItem::Compaction { encrypted_content, .. } => ResponseItem::Compaction {
                id: None,
                encrypted_content,
                internal_chat_message_metadata_passthrough: None,
            },
            ResponseItem::CompactionTrigger { .. } => ResponseItem::CompactionTrigger {
                id: None,
                internal_chat_message_metadata_passthrough: None,
            },
            ResponseItem::ContextCompaction { encrypted_content, .. } => ResponseItem::ContextCompaction {
                id: None,
                encrypted_content,
                internal_chat_message_metadata_passthrough: None,
            },
            ResponseItem::Other => ResponseItem::Other,
        }
    }

    /// The Responses id of the item.
    pub fn id(&self) -> (found: &Option<String>)
        ensures
            *found == self.spec_id(),
    {
        match self {
            ResponseItem::AdditionalTools { id, .. }
            | ResponseItem::Message { id, .. }
            | ResponseItem::AgentMessage { id, .. }
            | ResponseItem::Reasoning { id, .. }
            | ResponseItem::LocalShellCall { id, .. }
            | ResponseItem::FunctionCall { id, .. }
            | ResponseItem::ToolSearchCall { id, .. }
            | ResponseItem::FunctionCallOutput { id, .. }
            | ResponseItem::CustomToolCall { id, .. }
            | ResponseItem::CustomToolCallOutput { id, .. }
            | ResponseItem::ToolSearchOutput { id, .. }
            | ResponseItem::WebSearchCall { id, .. }
            | ResponseItem::ImageGenerationCall { id, .. }
            | ResponseItem::Compaction { id, .. }
            | ResponseItem::CompactionTrigger { id, .. }
            | ResponseItem::ContextCompaction { id, .. } => id,
            ResponseItem::Other => &None,
        }
    }

    /// The Responses-side metadata of the item.
    pub fn internal_chat_message_metadata_passthrough(&self) -> (found: &Option<
        InternalChatMessageMetadataPassthrough,
    >)
        ensures
            *found == self.spec_passthrough(),
    {
        match self {
            ResponseItem::AdditionalTools { internal_chat_message_metadata_passthrough: m, .. }
            | ResponseItem::Message { internal_chat_message_metadata_passthrough: m, .. }
            | ResponseItem::AgentMessage { internal_chat_message_metadata_passthrough: m, .. }
            | ResponseItem::Reasoning { internal_chat_message_metadata_passthrough: m, .. }
            | ResponseItem::LocalShellCall { internal_chat_message_metadata_passthrough: m, .. }
            | ResponseItem::FunctionCall { internal_chat_message_metadata_passthrough: m, .. }
            | ResponseItem::ToolSearchCall { internal_chat_message_metadata_passthrough: m, .. }
            | ResponseItem::FunctionCallOutput { internal_chat_message_metadata_passthrough: m, .. }
            | ResponseItem::CustomToolCall { internal_chat_message_metadata_passthrough: m, .. }
            | ResponseItem::CustomToolCallOutput { internal_chat_message_metadata_passthrough: m, .. }
            | ResponseItem::ToolSearchOutput { internal_chat_message_metadata_passthrough: m, .. }
            | ResponseItem::WebSearchCall { internal_chat_message_metadata_passthrough: m, .. }
            | ResponseItem::ImageGenerationCall { internal_chat_message_metadata_passthrough: m, .. }
            | ResponseItem::Compaction { internal_chat_message_metadata_passthrough: m, .. }
            | ResponseItem::CompactionTrigger { internal_chat_message_metadata_passthrough: m, .. }
            | ResponseItem::ContextCompaction { internal_chat_message_metadata_passthrough: m, .. } => m,
            ResponseItem::Other => &None,
        }
    }

    /// Drops the id of the item.
    pub fn clear_id(&mut self)
        ensures
            final(self).spec_id() is None,
            final(self).spec_passthrough() == old(self).spec_passthrough(),
            final(self).without_affinity() == old(self).without_affinity(),
    {
        match self {
            ResponseItem::AdditionalTools { id, .. } => {
                *id = None;
            },
            ResponseItem::Message { id, .. } => {
                *id = None;
            },
            ResponseItem::AgentMessage { id, .. } => {
                *id = None;
            },
            ResponseItem::Reasoning { id, .. } => {
                *id = None;
            },
            ResponseItem::LocalShellCall { id, .. } => {
                *id = None;
            },
            ResponseItem::FunctionCall { id, .. } => {
                *id = None;
            },
            ResponseItem::ToolSearchCall { id, .. } => {
                *id = None;
            },
            ResponseItem::FunctionCallOutput { id, .. } => {
                *id = None;
            },
            ResponseItem::CustomToolCall { id, .. } => {
                *id = None;
            },
            ResponseItem::CustomToolCallOutput { id, .. } => {
                *id = None;
            },
            ResponseItem::ToolSearchOutput { id, .. } => {
                *id = None;
            },
            ResponseItem::WebSearchCall { id, .. } => {
                *id = None;
            },
            ResponseItem::ImageGenerationCall { id, .. } => {
                *id = None;
            },
            ResponseItem::Compaction { id, .. } => {
                *id = None;
            },
            ResponseItem::CompactionTrigger { id, .. } => {
                *id = None;
            },
            ResponseItem::ContextCompaction { id, .. } => {
                *id = None;
            },
            ResponseItem::Other => {},
        }
    }

    /// Drops the Responses-side metadata of the item.
    pub fn clear_internal_chat_message_metadata_passthrough(&mut self)
        ensures
            final(self).spec_passthrough() is None,
            final(self).spec_id() == old(self).spec_id(),
            final(self).without_affinity() == old(self).without_affinity(),
    {
        match self {
            ResponseItem::AdditionalTools { internal_chat_message_metadata_passthrough: m, .. } => {
                *m = None;
            },
            ResponseItem::Message { internal_chat_message_metadata_passthrough: m, .. } => {
                *m = None;
            },
            ResponseItem::AgentMessage { internal_chat_message_metadata_passthrough: m, .. } => {
                *m = None;
            },
            ResponseItem::Reasoning { internal_chat_message_metadata_passthrough: m, .. } => {
                *m = None;
            },
            ResponseItem::LocalShellCall { internal_chat_message_metadata_passthrough: m, .. } => {
                *m = None;
            },
            ResponseItem::FunctionCall { internal_chat_message_metadata_passthrough: m, .. } => {
                *m = None;
            },
            ResponseItem::ToolSearchCall { internal_chat_message_metadata_passthrough: m, .. } => {
                *m = None;
            },
            ResponseItem::FunctionCallOutput { internal_chat_message_metadata_passthrough: m, .. } => {
                *m = None;
            },
            ResponseItem::CustomToolCall { internal_chat_message_metadata_passthrough: m, .. } => {
                *m = None;
            },
            ResponseItem::CustomToolCallOutput { internal_chat_message_metadata_passthrough: m, .. } => {
                *m = None;
            },
            ResponseItem::ToolSearchOutput { internal_chat_message_metadata_passthrough: m, .. } => {
                *m = None;
            },
            ResponseItem::WebSearchCall { internal_chat_message_metadata_passthrough: m, .. } => {
                *m = None;
            },
            ResponseItem::ImageGenerationCall { internal_chat_message_metadata_passthrough: m, .. } => {
                *m = None;
            },
            ResponseItem::Compaction { internal_chat_message_metadata_passthrough: m, .. } => {
                *m = None;
            },
            ResponseItem::CompactionTrigger { internal_chat_message_metadata_passthrough: m, .. } => {
                *m = None;
            },
            ResponseItem::ContextCompaction { internal_chat_message_metadata_passthrough: m, .. } => {
                *m = None;
            },
            ResponseItem::Other => {},
        }
    }
}

} // verus!
