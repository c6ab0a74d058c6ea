//! The request side of a turn: the prompt, the instructions composed for it,
//! the reasoning settings and the payload that goes out.

use crate::config_types::{ReasoningEffort, ReasoningSummary};
use crate::model_family::ModelFamily;
use crate::models::{ContentItem, ContentItemView, ResponseItem, ResponseItemView};
use crate::openai_tools::OpenAiTool;
use crate::protocol::TokenUsage;
use crate::text::{optional_text, same_text};
use std::borrow::Cow;
use vstd::prelude::*;
use vstd::string::*;

verus! {

/// The instructions that every turn starts with, unless the prompt replaces
/// them.
pub const BASE_INSTRUCTIONS: &'static str =
    "You are a coding agent working in the user's terminal. Be precise, safe and helpful.\n\nBefore you act, read the code that your change touches. Keep every change as small as the task allows, follow the conventions of the surrounding code, and explain in a few sentences what you did and why. Never run a command that destroys data unless the user asked for exactly that, and say so plainly when you could not finish the task.";

/// How to write a patch. Added to the instructions of a turn whose model was
/// offered no patch tool, or needs the explanation even with one.
pub const APPLY_PATCH_TOOL_INSTRUCTIONS: &'static str =
    "## `apply_patch`\n\nEdit files with the `apply_patch` command. A patch starts with the line `*** Begin Patch` and ends with the line `*** End Patch`. Between them stands one section per file, opened by `*** Add File: <path>`, `*** Delete File: <path>` or `*** Update File: <path>`. Every line of an added file starts with `+`. An updated file is changed hunk by hunk: a hunk may open with `@@` and the line that locates it, and each of its lines starts with a space (context), `-` (removed) or `+` (added). Paths are relative, never absolute.";

/// Opens the wrapping of user instructions, so that the model can tell them
/// from an ordinary turn.
pub const USER_INSTRUCTIONS_START: &'static str = "<user_instructions>\n\n";

/// Closes the wrapping of user instructions.
pub const USER_INSTRUCTIONS_END: &'static str = "\n\n</user_instructions>";

/// The name of the tool that applies patches.
pub const APPLY_PATCH_TOOL_NAME: &'static str = "apply_patch";

/// What a turn sends to the model.
#[derive(Debug)]
pub struct Prompt {
    /// The conversation so far, in order.
    pub input: Vec<ResponseItem>,
    /// Whether the response is kept on the server.
    pub store: bool,
    /// The tools offered to the model.
    pub tools: Vec<OpenAiTool>,
    /// Replaces the built-in instructions as a whole.
    pub base_instructions_override: Option<String>,
}

impl Default for Prompt {
    fn default() -> (prompt: Self)
        ensures
            prompt.input@.len() == 0,
            !prompt.store,
            prompt.tools@.len() == 0,
            prompt.base_instructions_override is None,
    {
        Prompt {
            input: Vec::new(),
            store: false,
            tools: Vec::new(),
            base_instructions_override: None,
        }
    }
}

impl Clone for Prompt {
    fn clone(&self) -> (copy: Self)
        ensures
            item_views(copy.input@) == item_views(self.input@),
            copy.store == self.store,
            copy.tools@ == self.tools@,
            copy.base_instructions_override == self.base_instructions_override,
    {
        let input = self.input.clone();
        let tools = self.tools.clone();
        let base_instructions_override = match &self.base_instructions_override {
            Some(text) => Some(text.clone()),
            None => None,
        };
        Prompt { input, store: self.store, tools, base_instructions_override }
    }
}

/// `tool` is the function tool named `apply_patch`.
pub open spec fn is_apply_patch_tool(tool: OpenAiTool) -> bool {
    tool matches OpenAiTool::Function(f) && f.name@ == APPLY_PATCH_TOOL_NAME@
}

/// One of `tools` is the function tool named `apply_patch`.
pub open spec fn has_apply_patch_tool(tools: Seq<OpenAiTool>) -> bool {
    exists|i: int| 0 <= i < tools.len() && is_apply_patch_tool(#[trigger] tools[i])
}

/// The instructions of a turn. An override is taken as it stands. Without one,
/// the base text is followed, after a single newline, by the patch guidance
/// when no patch tool is offered or the model needs the guidance anyway.
pub open spec fn composed_instructions(
    base: Seq<char>,
    base_override: Option<Seq<char>>,
    guidance: Seq<char>,
    apply_patch_tool_present: bool,
    needs_special_instructions: bool,
) -> Seq<char> {
    match base_override {
        Some(text) => text,
        None => if needs_special_instructions || !apply_patch_tool_present {
            base + seq!['\n'] + guidance
        } else {
            base
        },
    }
}

/// The views of a list of conversation items, in order.
pub open spec fn item_views(items: Seq<ResponseItem>) -> Seq<ResponseItemView> {
    Seq::new(items.len(), |i: int| items[i]@)
}

/// The message that carries the user instructions `ui`.
pub open spec fn user_instructions_message(ui: Seq<char>) -> ResponseItemView {
    ResponseItemView::Message {
        id: None,
        role: "user"@,
        content: seq![
            ContentItemView::InputText {
                text: USER_INSTRUCTIONS_START@ + ui + USER_INSTRUCTIONS_END@,
            },
        ],
    }
}

/// Composes the instructions of a turn from the base text `base`, an optional
/// replacement for it, and the patch guidance `guidance`.
pub fn compose_instructions(
    base: &str,
    base_override: Option<&str>,
    guidance: &str,
    apply_patch_tool_present: bool,
    needs_special_instructions: bool,
) -> (full: String)
    ensures
        full@ == composed_instructions(
            base@,
            match base_override {
                Some(text) => Some(text@),
                None => None,
            },
            guidance@,
            apply_patch_tool_present,
            needs_special_instructions,
        ),
{
    match base_override {
        Some(text) => String::from_str(text),
        None => {
            let mut full = String::from_str(base);
            if needs_special_instructions || !apply_patch_tool_present {
                proof {
                    reveal_strlit("\n");
                }
                full.append("\n");
                full.append(guidance);
            }
            full
        },
    }
}

/// The built-in instructions are not empty.
pub proof fn lemma_base_instructions_not_empty()
    ensures
        BASE_INSTRUCTIONS@.len() > 0,
{
    reveal_strlit(
        "You are a coding agent working in the user's terminal. Be precise, safe and helpful.\n\nBefore you act, read the code that your change touches. Keep every change as small as the task allows, follow the conventions of the surrounding code, and explain in a few sentences what you did and why. Never run a command that destroys data unless the user asked for exactly that, and say so plainly when you could not finish the task.",
    );
}

/// Whether one of `tools` is the function tool named `apply_patch`.
pub fn is_apply_patch_tool_present(tools: &Vec<OpenAiTool>) -> (present: bool)
    ensures
        present == has_apply_patch_tool(tools@),
{
    let mut i: usize = 0;
    while i < tools.len()
        invariant
            i <= tools@.len(),
            forall|j: int| 0 <= j < i ==> !is_apply_patch_tool(#[trigger] tools@[j]),
        decreases tools@.len() - i,
    {
        match &tools[i] {
            OpenAiTool::Function(f) => {
                if same_text(f.name.as_str(), APPLY_PATCH_TOOL_NAME) {
                    return true;
                }
            },
            _ => {},
        }
        i += 1;
    }
    false
}

impl Prompt {
    /// The instructions of this turn for a model of the family `model`.
    pub fn get_full_instructions(&self, model: &ModelFamily) -> (full: Cow<'_, str>)
        ensures
            full@ == composed_instructions(
                BASE_INSTRUCTIONS@,
                optional_text(self.base_instructions_override),
                APPLY_PATCH_TOOL_INSTRUCTIONS@,
                has_apply_patch_tool(self.tools@),
                model.needs_special_apply_patch_instructions,
            ),
            self.base_instructions_override is None && !has_apply_patch_tool(self.tools@) ==> full@
                == BASE_INSTRUCTIONS@ + seq!['\n'] + APPLY_PATCH_TOOL_INSTRUCTIONS@,
            self.base_instructions_override is None && has_apply_patch_tool(self.tools@)
                && !model.needs_special_apply_patch_instructions ==> full@ == BASE_INSTRUCTIONS@,
            self.base_instructions_override is None && has_apply_patch_tool(self.tools@)
                && model.needs_special_apply_patch_instructions ==> full@ == BASE_INSTRUCTIONS@
                + seq!['\n'] + APPLY_PATCH_TOOL_INSTRUCTIONS@,
            self.base_instructions_override matches Some(text) ==> full@ == text@,
            self.base_instructions_override is None ==> full@.len() > 0,
    {
        proof {
            lemma_base_instructions_not_empty();
        }
        let present = is_apply_patch_tool_present(&self.tools);
        let base_override = match &self.base_instructions_override {
            Some(text) => Some(text.as_str()),
            None => None,
        };
        Cow::Owned(
            compose_instructions(
                BASE_INSTRUCTIONS,
                base_override,
                APPLY_PATCH_TOOL_INSTRUCTIONS,
                present,
                model.needs_special_apply_patch_instructions,
            ),
        )
    }

    /// The conversation items to send, in order.
    pub fn get_formatted_input(&self) -> (input: Vec<ResponseItem>)
        ensures
            item_views(input@) == item_views(self.input@),
    {
        self.input.clone()
    }

    /// Wraps the user instructions `ui` in a message of the user, between the
    /// two markers.
    pub fn format_user_instructions_message(ui: &str) -> (message: ResponseItem)
        ensures
            message@ == user_instructions_message(ui@),
    {
        let mut text = String::from_str(USER_INSTRUCTIONS_START);
        text.append(ui);
        text.append(USER_INSTRUCTIONS_END);
        let mut content: Vec<ContentItem> = Vec::new();
        content.push(ContentItem::InputText { text });
        let message = ResponseItem::Message {
            id: None,
            role: String::from_str("user"),
            content,
        };
        assert(message@->Message_content =~= user_instructions_message(ui@)->Message_content);
        message
    }
}

/// The reasoning settings of a request.
#[derive(Debug, Clone, Copy, PartialEq, Eq, Structural)]
pub struct Reasoning {
    pub effort: ReasoningEffort,
    pub summary: ReasoningSummary,
}

/// The reasoning settings to send to a model of the family `model_family`:
/// the settings asked for where the family reports reasoning summaries, and
/// none at all where it does not.
pub fn create_reasoning_param_for_request(
    model_family: &ModelFamily,
    effort: ReasoningEffort,
    summary: ReasoningSummary,
) -> (reasoning: Option<Reasoning>)
    ensures
        model_family.supports_reasoning_summaries ==> reasoning == Some(
            (Reasoning { effort, summary }),
        ),
        !model_family.supports_reasoning_summaries ==> reasoning is None,
{
    if model_family.supports_reasoning_summaries {
        Some(Reasoning { effort, summary })
    } else {
        None
    }
}

/// One step of the model's answer to a turn.
///
/// A turn that succeeds ends with exactly one `Completed`; nothing follows it.
#[derive(Debug, PartialEq, Eq)]
pub enum ResponseEvent {
    Created,
    OutputItemDone(ResponseItem),
    Completed { response_id: String, token_usage: Option<TokenUsage> },
    OutputTextDelta(String),
    ReasoningSummaryDelta(String),
    ReasoningContentDelta(String),
    ReasoningSummaryPartAdded,
}

/// `serde_json::Value`: a tool definition in the form in which it goes out.
/// A request carries such values along unread; nothing is claimed of what
/// they hold.
#[verifier::external_type_specification]
#[verifier::external_body]
pub struct ExJsonValue(serde_json::Value);

/// The tool-choice policy of every request: the model decides.
pub const TOOL_CHOICE: &'static str = "auto";

/// The payload of one turn, as it goes out to the model.
#[derive(Debug)]
pub struct ResponsesApiRequest<'a> {
    pub model: &'a str,
    pub instructions: &'a str,
    pub input: &'a Vec<ResponseItem>,
    pub tools: &'a [serde_json::Value],
    pub tool_choice: &'static str,
    pub parallel_tool_calls: bool,
    pub reasoning: Option<Reasoning>,
    pub store: bool,
    pub stream: bool,
    pub includes: Vec<String>,
    pub prompt_cache_key: Option<String>,
}

impl<'a> ResponsesApiRequest<'a> {
    /// Assembles the payload of the turn `prompt` for the model `model`.
    ///
    /// The payload always asks for a streamed answer, keeps the answer on the
    /// server exactly when the prompt says so, and carries everything else as
    /// it was handed in.
    pub fn assemble(
        model: &'a str,
        instructions: &'a str,
        prompt: &'a Prompt,
        tools: &'a [serde_json::Value],
        parallel_tool_calls: bool,
        reasoning: Option<Reasoning>,
        includes: Vec<String>,
        prompt_cache_key: Option<String>,
    ) -> (request: Self)
        ensures
            request.model@ == model@,
            request.instructions@ == instructions@,
            request.input == &prompt.input,
            request.tools@ == tools@,
            request.tool_choice@ == TOOL_CHOICE@,
            request.parallel_tool_calls == parallel_tool_calls,
            request.reasoning == reasoning,
            request.store == prompt.store,
            request.stream,
            request.includes == includes,
            request.prompt_cache_key == prompt_cache_key,
    {
        ResponsesApiRequest {
            model,
            instructions,
            input: &prompt.input,
            tools,
            tool_choice: TOOL_CHOICE,
            parallel_tool_calls,
            reasoning,
            store: prompt.store,
            stream: true,
            includes,
            prompt_cache_key,
        }
    }
}

} // verus!
