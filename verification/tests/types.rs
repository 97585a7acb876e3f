use llm_runner::openai_network_types::{
    AssistantMessage, Function, OpenAIMessageType, Roles, ToolCall,
};
use llm_runner::openai_response_types::{
    Content, Format, InputTokensDetails, Message, OutputTokensDetails, Text, Usage,
};
use llm_runner::tools_definition::FunctionName;
use llm_runner::types::{
    combine, ApiType, AssistantSettings, CacheEntry, Decimal, InputKind, PromptMode,
    ReasonEffort, RustyEnum, SublimeInputContent, SublimeOutputContent,
};

#[test]
fn types_test_is_sync() {
    fn is_sync<T: Sync>() {}

    is_sync::<AssistantSettings>();
    is_sync::<SublimeInputContent>();
    is_sync::<InputKind>();
    is_sync::<CacheEntry>();
    is_sync::<PromptMode>();
}

#[test]
fn types_test_is_send() {
    fn is_send<T: Send>() {}

    is_send::<AssistantSettings>();
    is_send::<SublimeInputContent>();
    is_send::<InputKind>();
    is_send::<CacheEntry>();
    is_send::<PromptMode>();
}

fn message(content: Option<&str>) -> AssistantMessage {
    AssistantMessage {
        role: Roles::Assistant,
        content: content.map(|c| c.to_string()),
        tool_calls: None,
    }
}

#[test]
fn reasoning_moves_out_of_the_content() {
    let entry = CacheEntry::from_message(message(Some("<think>first\nsecond</think>The answer")));
    assert_eq!(entry.thinking, Some("first\nsecond".to_string()));
    assert_eq!(entry.content, Some("<think></think>The answer".to_string()));
    assert_eq!(entry.role, Roles::Assistant);
    assert_eq!(entry.path, None);
    assert_eq!(entry.tool_call_id, None);

    let entry = CacheEntry::from_message(message(Some("<think>a</think>b<think>c</think>")));
    assert_eq!(entry.thinking, Some("a".to_string()));
    assert_eq!(entry.content, Some("<think></think>b<think>c</think>".to_string()));

    let entry = CacheEntry::from_message(message(Some("plain <think>open")));
    assert_eq!(entry.thinking, None);
    assert_eq!(entry.content, Some("plain <think>open".to_string()));

    let entry = CacheEntry::from_message(message(Some("<think></think>x")));
    assert_eq!(entry.thinking, Some("".to_string()));
    assert_eq!(entry.content, Some("<think></think>x".to_string()));

    let entry = CacheEntry::from_message(message(None));
    assert_eq!(entry.thinking, None);
    assert_eq!(entry.content, None);

    let mut text = "<think>why</think>so, why not".to_string();
    let thinking = CacheEntry::extract_thinking_part(&mut text);
    assert_eq!(thinking, Some("why".to_string()));
    assert_eq!(text, "<think></think>so,  not");
}

#[test]
fn reasoning_is_shown_between_its_tags_again() {
    let entry = CacheEntry::from_message(message(Some("<think>because</think>The answer")));
    let shown = SublimeOutputContent::from_entry(&entry);
    assert_eq!(shown.content, Some("<think>because</think>The answer".to_string()));
    assert_eq!(shown.role, Roles::Assistant);
    assert_eq!(shown.path, None);

    let mut plain = CacheEntry::from_message(message(Some("The answer")));
    plain.path = Some("/a/b".to_string());
    let shown = SublimeOutputContent::from_entry(&plain);
    assert_eq!(shown.content, Some("The answer".to_string()));
    assert_eq!(shown.path, Some("/a/b".to_string()));

    let none = CacheEntry::from_message(message(None));
    assert_eq!(SublimeOutputContent::from_entry(&none).content, None);
}

#[test]
fn an_input_is_logged_under_its_role() {
    let mut input = SublimeInputContent::new(
        InputKind::ViewSelection,
        Some("text".to_string()),
        Some("/path/to/file".to_string()),
        Some("text.plain".to_string()),
    );
    assert_eq!(input.tool_id, None);
    let entry = CacheEntry::from_input(input.clone());
    assert_eq!(
        entry,
        CacheEntry {
            content: Some("text".to_string()),
            thinking: None,
            path: Some("/path/to/file".to_string()),
            scope: Some("text.plain".to_string()),
            role: Roles::User,
            tool_calls: None,
            tool_call_id: None,
        }
    );
    assert_eq!(entry.duplicate(), entry);
    assert_eq!(input.duplicate(), input);
    input.tool_id = Some("call_1".to_string());
    let entry = CacheEntry::from_input(input.clone());
    assert_eq!(entry.role, Roles::Tool);
    assert_eq!(entry.tool_call_id, Some("call_1".to_string()));
    input.input_kind = InputKind::AssistantResponse;
    assert_eq!(CacheEntry::from_input(input).role, Roles::Assistant);
}

#[test]
fn path_and_content_are_combined() {
    let input = SublimeInputContent::new(
        InputKind::Command,
        Some("content".to_string()),
        Some("/p".to_string()),
        None,
    );
    assert_eq!(input.combined_content(), "Path: `/p`\ncontent");
    let input = SublimeInputContent::new(InputKind::Command, Some("content".to_string()), None, None);
    assert_eq!(input.combined_content(), "content");
    let input = SublimeInputContent::new(InputKind::Command, None, Some("/p".to_string()), None);
    assert_eq!(input.combined_content(), "");
    assert_eq!(combine(&None, &None), "");
    let entry = CacheEntry::from_input(SublimeInputContent::new(
        InputKind::Command,
        Some("c".to_string()),
        Some("/q".to_string()),
        None,
    ));
    assert_eq!(entry.combined_content(), "Path: `/q`\nc");
}

#[test]
fn the_default_settings() {
    let settings = AssistantSettings::default();
    assert_eq!(settings.name, "Default");
    assert_eq!(settings.output_mode, PromptMode::Phantom);
    assert_eq!(settings.chat_model, "gpt-4o-mini");
    assert_eq!(settings.url, "https://api.openai.com/v1/chat/completions");
    assert_eq!(settings.assistant_role, None);
    assert_eq!(settings.token, None);
    assert_eq!(settings.temperature, None);
    assert_eq!(settings.max_tokens, None);
    assert_eq!(settings.tools, None);
    assert_eq!(settings.timeout, 10);
    assert!(settings.stream);
    assert!(settings.advertisement);
    assert_eq!(settings.api_type, ApiType::PlainText);

    let mut changed = AssistantSettings::default();
    changed.reasoning_effort = Some(ReasonEffort::High);
    changed.top_p = Some(Decimal { bits: 1.0f64.to_bits() });
    changed.token = Some("some_token".to_string());
    let copy = changed.deep_copy();
    assert_eq!(copy, changed);
    assert_eq!(f64::from_bits(copy.top_p.unwrap().bits), 1.0);
}

#[test]
fn tools_are_offered_under_their_names() {
    let all = [
        (FunctionName::CreateFile, "create_file"),
        (FunctionName::ApplyPatch, "apply_patch"),
        (FunctionName::ReplaceTextForWholeFile, "replace_text_for_whole_file"),
        (FunctionName::ReadRegionContent, "read_region_content"),
        (FunctionName::GetWorkingDirectoryContent, "get_working_directory_content"),
    ];
    for (function, name) in all {
        assert_eq!(function.name(), name);
        assert_eq!(FunctionName::from_name(name), Some(function));
    }
    assert_eq!(FunctionName::from_name("CreateFile"), None);
    assert_eq!(FunctionName::from_name(""), None);
}

#[test]
fn the_parts_of_a_newer_response() {
    let message = Message {
        kind: "message".to_string(),
        id: "msg_1".to_string(),
        status: "completed".to_string(),
        role: "assistant".to_string(),
        content: vec![
            Content { kind: OpenAIMessageType::Text, text: Some("Hello".to_string()) },
            Content { kind: OpenAIMessageType::ImageUrl, text: None },
            Content { kind: OpenAIMessageType::Text, text: Some(", world".to_string()) },
        ],
    };
    assert_eq!(message.content.len(), 3);
    assert_eq!(message.clone(), message);
    let usage = Usage {
        input_tokens: 1,
        input_tokens_details: InputTokensDetails { cached_tokens: 0 },
        output_tokens: 2,
        output_tokens_details: OutputTokensDetails { reasoning_tokens: 1 },
        total_tokens: 3,
    };
    assert_eq!(usage.total_tokens, usage.input_tokens + usage.output_tokens);
    let text = Text { format: Format { kind: "text".to_string() } };
    assert_eq!(text.format.kind, "text");
}

#[test]
fn a_tool_call_is_copied_whole() {
    let call = ToolCall {
        id: "call_etemzkk7d3atzyzsj3823b96".to_string(),
        kind: "function".to_string(),
        function: Function {
            name: "create_file".to_string(),
            arguments: "{\"file_path\":\"/home/user/debug.txt\"}".to_string(),
        },
    };
    assert_eq!(call.duplicate(), call);
}

fn text(key: &str, value: &str) -> (String, RustyEnum) {
    (key.to_string(), RustyEnum::String(value.to_string()))
}

fn fraction(key: &str, value: f64) -> (String, RustyEnum) {
    (key.to_string(), RustyEnum::Float(Decimal { bits: value.to_bits() }))
}

fn count(key: &str, value: usize) -> (String, RustyEnum) {
    (key.to_string(), RustyEnum::Int(value))
}

fn switch(key: &str, value: bool) -> (String, RustyEnum) {
    (key.to_string(), RustyEnum::Bool(value))
}

#[test]
fn settings_are_read_from_a_configuration() {
    let dict = vec![
        text("api_type", "open_ai"),
        text("reasoning_effort", "high"),
        text("name", "Example"),
        text("chat_model", "gpt-4o-mini"),
        text("assistant_role", "Some Role"),
        text("url", "https://models.inference.ai.azure.com/path/to"),
        text("token", "some_token"),
        fraction("temperature", 0.7),
        count("max_completion_tokens", 2048),
        fraction("top_p", 1.0),
        fraction("frequency_penalty", 2.0),
        fraction("presence_penalty", 3.0),
        switch("tools", true),
        switch("parallel_tool_calls", false),
        switch("stream", false),
        switch("advertisement", false),
        text("output_mode", "view"),
    ];
    let decoded = AssistantSettings::new(&dict);

    assert_eq!(decoded.api_type, ApiType::OpenAi);
    assert_eq!(decoded.reasoning_effort, Some(ReasonEffort::High));
    assert_eq!(decoded.name, "Example".to_string());
    assert_eq!(decoded.chat_model, "gpt-4o-mini".to_string());
    assert_eq!(decoded.assistant_role, Some("Some Role".to_string()));
    assert_eq!(
        decoded.url,
        "https://models.inference.ai.azure.com/path/to".to_string()
    );
    assert_eq!(decoded.token, Some("some_token".to_string()));
    assert_eq!(decoded.temperature.map(|d| f64::from_bits(d.bits)), Some(0.7));
    assert_eq!(decoded.max_tokens, None);
    assert_eq!(decoded.max_completion_tokens, Some(2048));
    assert_eq!(decoded.top_p.map(|d| f64::from_bits(d.bits)), Some(1.0));
    assert_eq!(decoded.frequency_penalty.map(|d| f64::from_bits(d.bits)), Some(2.0));
    assert_eq!(decoded.presence_penalty.map(|d| f64::from_bits(d.bits)), Some(3.0));
    assert_eq!(decoded.tools, Some(true));
    assert_eq!(decoded.parallel_tool_calls, Some(false));
    assert!(!decoded.stream);
    assert!(!decoded.advertisement);
    assert_eq!(decoded.output_mode, PromptMode::View);
    assert_eq!(decoded.timeout, 10);
}

#[test]
fn an_empty_configuration_gives_the_defaults() {
    assert_eq!(AssistantSettings::new(&vec![]), AssistantSettings::default());
    let wrong_kinds = vec![
        count("name", 5),
        text("timeout", "30"),
        text("stream", "false"),
        count("temperature", 1),
        switch("api_type", true),
    ];
    assert_eq!(AssistantSettings::new(&wrong_kinds), AssistantSettings::default());
}

#[test]
fn the_mode_is_read_with_its_older_names() {
    let mode = |dict: Vec<(String, RustyEnum)>| AssistantSettings::new(&dict).output_mode;
    assert_eq!(mode(vec![text("output_mode", "view")]), PromptMode::View);
    assert_eq!(mode(vec![text("output_mode", "panel")]), PromptMode::View);
    assert_eq!(mode(vec![text("prompt_mode", "panel")]), PromptMode::View);
    assert_eq!(mode(vec![text("prompt_mode", "view")]), PromptMode::View);
    assert_eq!(mode(vec![text("output_mode", "phantom")]), PromptMode::Phantom);
    assert_eq!(mode(vec![text("output_mode", "View")]), PromptMode::Phantom);
    assert_eq!(
        mode(vec![text("output_mode", "phantom"), text("prompt_mode", "view")]),
        PromptMode::Phantom
    );
    assert_eq!(
        mode(vec![count("output_mode", 1), text("prompt_mode", "view")]),
        PromptMode::Phantom
    );
}

#[test]
fn token_limits_and_names_are_read_as_configured() {
    let settings = AssistantSettings::new(&vec![count("max_tokens", 100)]);
    assert_eq!(settings.max_tokens, Some(100));
    assert_eq!(settings.max_completion_tokens, None);
    let settings =
        AssistantSettings::new(&vec![count("max_tokens", 100), count("max_completion_tokens", 150)]);
    assert_eq!(settings.max_tokens, None);
    assert_eq!(settings.max_completion_tokens, Some(150));
    let settings =
        AssistantSettings::new(&vec![count("max_tokens", 100), text("max_completion_tokens", "x")]);
    assert_eq!(settings.max_tokens, None);
    assert_eq!(settings.max_completion_tokens, None);
    let settings = AssistantSettings::new(&vec![count("timeout", 30), text("api_type", "other")]);
    assert_eq!(settings.timeout, 30);
    assert_eq!(settings.api_type, ApiType::PlainText);
    let effort = |name: &str| AssistantSettings::new(&vec![text("reasoning_effort", name)]).reasoning_effort;
    assert_eq!(effort("low"), Some(ReasonEffort::Low));
    assert_eq!(effort("Medium"), Some(ReasonEffort::Medium));
    assert_eq!(effort("medium"), None);
    assert_eq!(effort("high"), Some(ReasonEffort::High));
    assert_eq!(ApiType::from_name("open_ai"), Some(ApiType::OpenAi));
    assert_eq!(ApiType::from_name("plain_text"), Some(ApiType::PlainText));
    assert_eq!(ApiType::from_name("antropic"), Some(ApiType::Antropic));
    assert_eq!(ApiType::from_name("OpenAi"), None);
    assert_eq!(PromptMode::from_name("phantom"), Some(PromptMode::Phantom));
    assert_eq!(PromptMode::from_name("panel"), None);
    let first = AssistantSettings::new(&vec![text("name", "first"), text("name", "second")]);
    assert_eq!(first.name, "first");
}
