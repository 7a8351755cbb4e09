//! Notice that takes the place of tool output that cannot cross an account boundary.
use vstd::prelude::*;

use crate::history::ContentItemKind;

verus! {

/// Fixed-size notice used when account-scoped encrypted tool output cannot cross an execution
/// account boundary.
#[derive(Clone, Copy, Debug, PartialEq, Eq, Structural)]
pub struct AccountTransitionToolOutputNotice;

impl AccountTransitionToolOutputNotice {
    /// The rendered notice: the body between its markers.
    pub open spec fn text() -> Seq<char> {
        "<account_transition_tool_output_notice>"@
            + "\nEncrypted tool output was omitted because it belongs to a different Codex execution account.\n"@
            + "</account_transition_tool_output_notice>"@
    }

    pub fn content_kind(&self) -> (kind: ContentItemKind)
        ensures
            kind.0@ == "account_pool.tool_output_omitted"@,
    {
        ContentItemKind("account_pool.tool_output_omitted".to_owned())
    }

    pub fn role(&self) -> (role: &'static str)
        ensures
            role@ == "developer"@,
    {
        "developer"
    }

    pub fn requires_separate_message(&self) -> (separate: bool)
        ensures
            separate,
    {
        true
    }

    pub fn markers(&self) -> (markers: (&'static str, &'static str))
        ensures
            markers.0@ == "<account_transition_tool_output_notice>"@,
            markers.1@ == "</account_transition_tool_output_notice>"@,
    {
        Self::type_markers()
    }

    pub fn type_markers() -> (markers: (&'static str, &'static str))
        ensures
            markers.0@ == "<account_transition_tool_output_notice>"@,
            markers.1@ == "</account_transition_tool_output_notice>"@,
    {
        ("<account_transition_tool_output_notice>", "</account_transition_tool_output_notice>")
    }

    pub fn body(&self) -> (body: String)
        ensures
            body@
                == "\nEncrypted tool output was omitted because it belongs to a different Codex execution account.\n"@,
    {
        "\nEncrypted tool output was omitted because it belongs to a different Codex execution account.\n".to_owned()
    }

    /// The body between its markers.
    pub fn render(&self) -> (rendered: String)
        ensures
            rendered@ == Self::text(),
    {
        let (start, end) = self.markers();
        let mut rendered = start.to_owned();
        rendered.append(self.body().as_str());
        rendered.append(end);
        rendered
    }
}

} // verus!
