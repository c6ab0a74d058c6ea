use codex_core::client_common::{
    compose_instructions, create_reasoning_param_for_request, is_apply_patch_tool_present, Prompt,
    Reasoning, ResponsesApiRequest, APPLY_PATCH_TOOL_INSTRUCTIONS, BASE_INSTRUCTIONS, TOOL_CHOICE,
    USER_INSTRUCTIONS_END, USER_INSTRUCTIONS_START,
};
use codex_core::config_types::{ReasoningEffort, ReasoningSummary};
use codex_core::model_family::ModelFamily;
use codex_core::models::{ContentItem, ResponseItem};
use codex_core::openai_tools::{OpenAiTool, ResponsesApiTool};

fn family(slug: &str, needs_special: bool, summaries: bool) -> ModelFamily {
    ModelFamily {
        slug: slug.to_string(),
        family: slug.to_string(),
        needs_special_apply_patch_instructions: needs_special,
        supports_reasoning_summaries: summaries,
    }
}

fn find_family_for_model(slug: &str) -> Option<ModelFamily> {
    if slug.starts_with("gpt-4.1") {
        Some(family(slug, true, false))
    } else if slug.starts_with("o3") {
        Some(family(slug, false, true))
    } else {
        None
    }
}

fn function_tool(name: &str) -> OpenAiTool {
    OpenAiTool::Function(ResponsesApiTool {
        name: name.to_string(),
        description: String::new(),
        strict: false,
    })
}

fn user_message(text: &str) -> ResponseItem {
    ResponseItem::Message {
        id: None,
        role: "user".to_string(),
        content: vec![ContentItem::InputText { text: text.to_string() }],
    }
}

#[test]
fn get_full_instructions_no_user_content() {
    let prompt = Prompt {
        ..Default::default()
    };
    let expected = format!("{BASE_INSTRUCTIONS}\n{APPLY_PATCH_TOOL_INSTRUCTIONS}");
    let model_family = find_family_for_model("gpt-4.1").expect("known model slug");
    let full = prompt.get_full_instructions(&model_family);
    assert_eq!(full, expected);
}

#[test]
fn instructions_without_patch_tool_carry_the_guidance_whatever_the_flag() {
    let expected = format!("{BASE_INSTRUCTIONS}\n{APPLY_PATCH_TOOL_INSTRUCTIONS}");
    for needs_special in [false, true] {
        let prompt = Prompt {
            tools: vec![OpenAiTool::LocalShell, function_tool("shell")],
            ..Default::default()
        };
        let full = prompt.get_full_instructions(&family("m", needs_special, false));
        assert_eq!(full, expected);
    }
}

#[test]
fn instructions_with_patch_tool_and_no_flag_are_the_base_text() {
    let prompt = Prompt {
        tools: vec![function_tool("shell"), function_tool("apply_patch")],
        ..Default::default()
    };
    let full = prompt.get_full_instructions(&family("m", false, false));
    assert_eq!(full, BASE_INSTRUCTIONS);
}

#[test]
fn instructions_with_patch_tool_and_flag_carry_the_guidance() {
    let prompt = Prompt {
        tools: vec![function_tool("apply_patch")],
        ..Default::default()
    };
    let full = prompt.get_full_instructions(&family("m", true, false));
    assert_eq!(full, format!("{BASE_INSTRUCTIONS}\n{APPLY_PATCH_TOOL_INSTRUCTIONS}"));
}

#[test]
fn an_override_is_taken_verbatim() {
    let prompt = Prompt {
        base_instructions_override: Some("  only this \n".to_string()),
        ..Default::default()
    };
    let full = prompt.get_full_instructions(&family("m", true, false));
    assert_eq!(full, "  only this \n");

    let with_tool = Prompt {
        tools: vec![function_tool("apply_patch")],
        base_instructions_override: Some(String::new()),
        ..Default::default()
    };
    assert_eq!(with_tool.get_full_instructions(&family("m", false, false)), "");
}

#[test]
fn composed_sections_are_joined_by_one_newline() {
    assert_eq!(compose_instructions("base", None, "patch", false, false), "base\npatch");
    assert_eq!(compose_instructions("base", None, "patch", false, true), "base\npatch");
    assert_eq!(compose_instructions("base", None, "patch", true, true), "base\npatch");
    assert_eq!(compose_instructions("base", None, "patch", true, false), "base");
    assert_eq!(compose_instructions("base", Some("other"), "patch", false, true), "other");
    assert_eq!(compose_instructions("", None, "", false, false), "\n");
}

#[test]
fn composing_twice_gives_the_same_text() {
    let prompt = Prompt {
        tools: vec![function_tool("shell")],
        ..Default::default()
    };
    let model = family("m", false, true);
    assert_eq!(prompt.get_full_instructions(&model), prompt.get_full_instructions(&model));
}

#[test]
fn the_built_in_texts_have_no_outer_whitespace() {
    assert!(!BASE_INSTRUCTIONS.is_empty());
    assert_eq!(BASE_INSTRUCTIONS.trim(), BASE_INSTRUCTIONS);
    assert_eq!(APPLY_PATCH_TOOL_INSTRUCTIONS.trim(), APPLY_PATCH_TOOL_INSTRUCTIONS);
}

#[test]
fn only_a_function_tool_named_apply_patch_counts() {
    assert!(!is_apply_patch_tool_present(&vec![]));
    assert!(!is_apply_patch_tool_present(&vec![OpenAiTool::LocalShell]));
    assert!(!is_apply_patch_tool_present(&vec![function_tool("apply_patch2")]));
    assert!(!is_apply_patch_tool_present(&vec![function_tool("Apply_Patch")]));
    assert!(!is_apply_patch_tool_present(&vec![function_tool("apply_patc")]));
    assert!(is_apply_patch_tool_present(&vec![
        OpenAiTool::LocalShell,
        function_tool("shell"),
        function_tool("apply_patch"),
    ]));
}

#[test]
fn user_instructions_are_wrapped_between_the_markers() {
    let message = Prompt::format_user_instructions_message("hello");
    let expected_text = format!("{USER_INSTRUCTIONS_START}hello{USER_INSTRUCTIONS_END}");
    assert_eq!(expected_text, "<user_instructions>\n\nhello\n\n</user_instructions>");
    assert_eq!(message, user_message(&expected_text));
    match message {
        ResponseItem::Message { id, role, content } => {
            assert_eq!(id, None);
            assert_eq!(role, "user");
            assert_eq!(content.len(), 1);
        }
        other => panic!("not a message: {other:?}"),
    }
}

#[test]
fn empty_user_instructions_are_wrapped_too() {
    let message = Prompt::format_user_instructions_message("");
    assert_eq!(message, user_message("<user_instructions>\n\n\n\n</user_instructions>"));
}

#[test]
fn formatted_input_is_the_conversation_in_order() {
    let prompt = Prompt {
        input: vec![user_message("one"), ResponseItem::Other, user_message("two")],
        ..Default::default()
    };
    assert_eq!(
        prompt.get_formatted_input(),
        vec![user_message("one"), ResponseItem::Other, user_message("two")]
    );
    assert_eq!(Prompt::default().get_formatted_input(), vec![]);
}

#[test]
fn a_cloned_prompt_holds_the_same_values() {
    let prompt = Prompt {
        input: vec![user_message("one")],
        store: true,
        tools: vec![function_tool("apply_patch"), OpenAiTool::LocalShell],
        base_instructions_override: Some("x".to_string()),
    };
    let copy = prompt.clone();
    assert_eq!(copy.input, prompt.input);
    assert_eq!(copy.store, prompt.store);
    assert_eq!(copy.tools, prompt.tools);
    assert_eq!(copy.base_instructions_override, prompt.base_instructions_override);
}

#[test]
fn the_default_prompt_is_empty() {
    let prompt = Prompt::default();
    assert!(prompt.input.is_empty());
    assert!(!prompt.store);
    assert!(prompt.tools.is_empty());
    assert_eq!(prompt.base_instructions_override, None);
}

#[test]
fn reasoning_is_sent_only_to_families_that_summarise() {
    let with = find_family_for_model("o3").expect("known model slug");
    let without = find_family_for_model("gpt-4.1").expect("known model slug");
    let efforts = [
        ReasoningEffort::Minimal,
        ReasoningEffort::Low,
        ReasoningEffort::Medium,
        ReasoningEffort::High,
    ];
    let summaries = [
        ReasoningSummary::Auto,
        ReasoningSummary::Concise,
        ReasoningSummary::Detailed,
        ReasoningSummary::Off,
    ];
    for effort in efforts {
        for summary in summaries {
            assert_eq!(
                create_reasoning_param_for_request(&with, effort, summary),
                Some(Reasoning { effort, summary })
            );
            assert_eq!(create_reasoning_param_for_request(&without, effort, summary), None);
        }
    }
}

#[test]
fn reasoning_settings_default_to_medium_and_auto() {
    assert_eq!(ReasoningEffort::default(), ReasoningEffort::Medium);
    assert_eq!(ReasoningSummary::default(), ReasoningSummary::Auto);
}

#[test]
fn an_assembled_request_streams_and_mirrors_the_prompt() {
    let tools = vec![serde_json::Value::String("tool".to_string()), serde_json::Value::Null];
    for store in [false, true] {
        let prompt = Prompt {
            input: vec![user_message("hi")],
            store,
            ..Default::default()
        };
        let reasoning = Some(Reasoning {
            effort: ReasoningEffort::High,
            summary: ReasoningSummary::Concise,
        });
        let request = ResponsesApiRequest::assemble(
            "o3",
            "do it",
            &prompt,
            &tools,
            false,
            reasoning,
            vec!["reasoning.encrypted_content".to_string()],
            Some("session-1".to_string()),
        );
        assert_eq!(request.model, "o3");
        assert_eq!(request.instructions, "do it");
        assert_eq!(request.input, &vec![user_message("hi")]);
        assert_eq!(request.tools, &tools[..]);
        assert_eq!(request.tool_choice, "auto");
        assert_eq!(request.tool_choice, TOOL_CHOICE);
        assert!(!request.parallel_tool_calls);
        assert_eq!(request.reasoning, reasoning);
        assert_eq!(request.store, store);
        assert!(request.stream);
        assert_eq!(request.includes, vec!["reasoning.encrypted_content".to_string()]);
        assert_eq!(request.prompt_cache_key, Some("session-1".to_string()));
    }
}

#[test]
fn an_assembled_request_may_lack_reasoning_and_cache_key() {
    let prompt = Prompt::default();
    let request =
        ResponsesApiRequest::assemble("gpt-4.1", "x", &prompt, &[], true, None, vec![], None);
    assert_eq!(request.reasoning, None);
    assert_eq!(request.prompt_cache_key, None);
    assert!(request.parallel_tool_calls);
    assert!(request.tools.is_empty());
    assert!(request.includes.is_empty());
    assert!(request.stream);
    assert!(!request.store);
}
