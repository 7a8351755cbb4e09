//! Shape of a warmup request.
//!
//! Interactive turns start the 5h window with the model's real instructions and the tools that a
//! session would advertise for the model. A warmup request has the same payload.
use vstd::prelude::*;

use crate::history::ContentItem;
use crate::history::ResponseItem;
use crate::text;
use crate::text::all_whitespace;

verus! {

/// How a model calls tools.
#[derive(Clone, Copy, Debug, PartialEq, Eq, Structural)]
pub enum ToolMode {
    Direct,
    CodeMode,
    CodeModeOnly,
}

/// One tool that a warmup request advertises, with its options.
#[derive(Clone, Copy, Debug, PartialEq, Eq, Structural)]
pub enum WarmupTool {
    CodeMode { code_mode_only: bool },
    Wait,
    ExecCommand {
        allow_login_shell: bool,
        exec_permission_approvals_enabled: bool,
        include_environment_id: bool,
        include_shell_parameter: bool,
        include_windows_shell_guidance: bool,
    },
    WriteStdin,
    ApplyPatchFreeform { include_environment_id: bool },
    UpdatePlan,
    ViewImage {
        can_request_original_image_detail: bool,
        unified_image_budget: bool,
        include_environment_id: bool,
    },
}

/// What a warmup request needs to know of its model. `instructions` are the model's own, for the
/// configured personality.
#[derive(Clone, Debug, PartialEq, Eq)]
pub struct WarmupModel {
    pub slug: String,
    pub instructions: String,
    pub tool_mode: Option<ToolMode>,
}

/// Instructions of a request.
#[derive(Clone, Debug, PartialEq, Eq)]
pub enum BaseInstructions {
    /// The default instructions of the harness.
    Default,
    /// The instructions of a model.
    Model { text: String, model: String },
}

#[derive(Clone, Debug, PartialEq, Eq)]
pub struct Prompt {
    pub input: Vec<ResponseItem>,
    pub tools: Vec<WarmupTool>,
    pub parallel_tool_calls: bool,
    pub base_instructions: BaseInstructions,
}

/// Metadata that a request carries for the backend.
#[derive(Clone, Debug, PartialEq, Eq)]
pub struct CodexResponsesMetadata {
    pub installation_id: String,
    pub session_id: String,
    pub thread_id: String,
    pub window_id: String,
    /// The request is a turn.
    pub is_turn: bool,
    pub turn_id: Option<String>,
    pub root_turn_id: Option<String>,
    /// The thread is the user's own.
    pub is_user_thread: bool,
}

/// The tools of a warmup request: `exec` and `wait` for a model that calls tools from code, the
/// classic command-line tools for any other.
pub open spec fn tools_for(tool_mode: Option<ToolMode>, windows: bool) -> Seq<WarmupTool> {
    match tool_mode {
        Some(ToolMode::CodeMode) => seq![
            WarmupTool::CodeMode { code_mode_only: false },
            WarmupTool::Wait,
        ],
        Some(ToolMode::CodeModeOnly) => seq![
            WarmupTool::CodeMode { code_mode_only: true },
            WarmupTool::Wait,
        ],
        _ => seq![
            WarmupTool::ExecCommand {
                allow_login_shell: false,
                exec_permission_approvals_enabled: false,
                include_environment_id: false,
                include_shell_parameter: true,
                include_windows_shell_guidance: windows,
            },
            WarmupTool::WriteStdin,
            WarmupTool::ApplyPatchFreeform { include_environment_id: false },
            WarmupTool::UpdatePlan,
            WarmupTool::ViewImage {
                can_request_original_image_detail: false,
                unified_image_budget: false,
                include_environment_id: false,
            },
        ],
    }
}

/// The tools of a warmup request on a host that runs Windows or not.
pub fn warmup_tool_specs(tool_mode: Option<ToolMode>, windows: bool) -> (tools: Vec<WarmupTool>)
    ensures
        tools@ == tools_for(tool_mode, windows),
{
    let mut tools: Vec<WarmupTool> = Vec::new();
    let code_mode = match tool_mode {
        Some(ToolMode::CodeMode) => Some(false),
        Some(ToolMode::CodeModeOnly) => Some(true),
        _ => None,
    };
    match code_mode {
        Some(code_mode_only) => {
            tools.push(WarmupTool::CodeMode { code_mode_only });
            tools.push(WarmupTool::Wait);
        },
        None => {
            tools.push(
                WarmupTool::ExecCommand {
                    allow_login_shell: false,
                    exec_permission_approvals_enabled: false,
                    include_environment_id: false,
                    include_shell_parameter: true,
                    include_windows_shell_guidance: windows,
                },
            );
            tools.push(WarmupTool::WriteStdin);
            tools.push(WarmupTool::ApplyPatchFreeform { include_environment_id: false });
            tools.push(WarmupTool::UpdatePlan);
            tools.push(
                WarmupTool::ViewImage {
                    can_request_original_image_detail: false,
                    unified_image_budget: false,
                    include_environment_id: false,
                },
            );
        },
    }
    tools
}

/// The instructions of a warmup request: the model's own, or the default where it has none.
pub open spec fn instructions_for(model: WarmupModel) -> BaseInstructions {
    if text::is_blank(model.instructions@) {
        BaseInstructions::Default
    } else {
        BaseInstructions::Model { text: model.instructions, model: model.slug }
    }
}

pub fn warmup_base_instructions(model: &WarmupModel) -> (instructions: BaseInstructions)
    ensures
        instructions == instructions_for(*model),
{
    if all_whitespace(model.instructions.as_str()) {
        BaseInstructions::Default
    } else {
        BaseInstructions::Model { text: model.instructions.clone(), model: model.slug.clone() }
    }
}

/// The prompt of a warmup request: one short question of the user, with the model's instructions and
/// tools.
pub fn warmup_prompt(model: &WarmupModel, windows: bool) -> (prompt: Prompt)
    ensures
        prompt.input@.len() == 1,
        prompt.input@[0] matches ResponseItem::Message {
            id: None,
            role,
            content,
            phase: None,
            internal_chat_message_metadata_passthrough: None,
        } && role@ == "user"@ && content@.len() == 1 && (content@[0] matches ContentItem::InputText {
            text,
        } && text@ == "1+1?"@),
        prompt.tools@ == tools_for(model.tool_mode, windows),
        prompt.parallel_tool_calls,
        prompt.base_instructions == instructions_for(*model),
{
    let mut content: Vec<ContentItem> = Vec::new();
    content.push(ContentItem::InputText { text: "1+1?".to_owned() });
    let mut input: Vec<ResponseItem> = Vec::new();
    input.push(
        ResponseItem::Message {
            id: None,
            role: "user".to_owned(),
            content,
            phase: None,
            internal_chat_message_metadata_passthrough: None,
        },
    );
    Prompt {
        input,
        tools: warmup_tool_specs(model.tool_mode, windows),
        parallel_tool_calls: true,
        base_instructions: warmup_base_instructions(model),
    }
}

/// The metadata of a warmup request: a user turn of its own, in a window of its own.
pub fn warmup_responses_metadata(
    installation_id: String,
    thread_id: &String,
    turn_id: String,
) -> (metadata: CodexResponsesMetadata)
    ensures
        metadata.installation_id == installation_id,
        metadata.session_id@ == thread_id@,
        metadata.thread_id@ == thread_id@,
        metadata.window_id@ == thread_id@ + ":warmup"@,
        metadata.is_turn,
        metadata.turn_id == Some(turn_id),
        metadata.root_turn_id == Some(turn_id),
        metadata.is_user_thread,
{
    let mut window_id = thread_id.clone();
    window_id.append(":warmup");
    CodexResponsesMetadata {
        installation_id,
        session_id: thread_id.clone(),
        thread_id: thread_id.clone(),
        window_id,
        is_turn: true,
        turn_id: Some(turn_id.clone()),
        root_turn_id: Some(turn_id),
        is_user_thread: true,
    }
}

/// A model that calls tools from code is offered the code tool, under its own restriction, and
/// `wait`; every other model the classic tools, with guidance for the host's shell.
pub proof fn law_model_is_offered_what_it_can_call(tool_mode: Option<ToolMode>, windows: bool)
    ensures
        ({
            let tools = tools_for(tool_mode, windows);
            let from_code = tool_mode is Some && (tool_mode->0 is CodeMode || tool_mode->0
                is CodeModeOnly);
            &&& from_code ==> tools.len() == 2 && tools[1] is Wait && tools[0]
                == (WarmupTool::CodeMode { code_mode_only: tool_mode->0 is CodeModeOnly })
            &&& !from_code ==> {
                &&& tools.len() == 5
                &&& tools[0] matches WarmupTool::ExecCommand {
                    include_windows_shell_guidance,
                    include_shell_parameter,
                    allow_login_shell,
                    ..
                } && include_windows_shell_guidance == windows && include_shell_parameter
                    && !allow_login_shell
                &&& tools[1] is WriteStdin
                &&& tools[2] is ApplyPatchFreeform
                &&& tools[3] is UpdatePlan
                &&& tools[4] is ViewImage
            }
        }),
{
}

/// A model's own instructions are used word for word as soon as they hold a character that is not
/// white.
pub proof fn law_own_instructions_are_used(model: WarmupModel, i: int)
    ensures
        0 <= i < model.instructions@.len() && !text::is_white(model.instructions@[i])
            ==> instructions_for(model) == (BaseInstructions::Model {
            text: model.instructions,
            model: model.slug,
        }),
        (forall|j: int| 0 <= j < model.instructions@.len() ==> text::is_white(
            #[trigger] model.instructions@[j],
        )) ==> instructions_for(model) is Default,
{
}

} // verus!
