use llm_runner::openai_network_types::{
    AssistantMessage, Choice, Function, OpenAICompletionRequest, OpenAIRequestMessage,
    OpenAIResponse, Roles, ToolCall,
};
use llm_runner::runner::{LlmRunner, TurnOutcome};
use llm_runner::types::{
    ApiType, AssistantSettings, CacheEntry, InputKind, SublimeInputContent,
};

fn input(kind: InputKind, content: &str) -> SublimeInputContent {
    SublimeInputContent::new(kind, Some(content.to_string()), None, None)
}

fn call(id: &str, name: &str, arguments: &str) -> ToolCall {
    ToolCall {
        id: id.to_string(),
        kind: "function".to_string(),
        function: Function { name: name.to_string(), arguments: arguments.to_string() },
    }
}

fn response(content: Option<&str>, tool_calls: Option<Vec<ToolCall>>) -> OpenAIResponse {
    OpenAIResponse {
        id: Some("some_id".to_string()),
        object: None,
        created: Some(367123),
        model: "some_model".to_string(),
        choices: vec![Choice {
            index: 0,
            finish_reason: Some("stop".to_string()),
            message: AssistantMessage {
                role: Roles::Assistant,
                content: content.map(|c| c.to_string()),
                tool_calls,
            },
        }],
    }
}

fn entry(role: Roles, content: Option<&str>) -> CacheEntry {
    CacheEntry {
        content: content.map(|c| c.to_string()),
        thinking: None,
        path: None,
        scope: None,
        role,
        tool_calls: None,
        tool_call_id: None,
    }
}

/// Runs a turn against prepared responses, with a list as the log; hands
/// back the last messages of each request that was built.
fn run_turn(
    log: &mut Vec<CacheEntry>,
    contents: Vec<SublimeInputContent>,
    store: bool,
    responses: Vec<OpenAIResponse>,
) -> Vec<usize> {
    let mut sizes = vec![];
    let mut contents = contents;
    let mut store = store;
    for response in responses {
        let cached: Vec<CacheEntry> = log.iter().map(|e| e.duplicate()).collect();
        for e in LlmRunner::entries_to_store(&contents, store) {
            log.push(e);
        }
        let mut settings = AssistantSettings::default();
        settings.api_type = ApiType::PlainText;
        let request = OpenAICompletionRequest::create_openai_completion_request(
            settings,
            cached,
            contents.clone(),
            vec![],
        );
        sizes.push(request.messages.len());
        match LlmRunner::after_response(response, store) {
            TurnOutcome::CallTools { persist, tool_calls, store: next } => {
                if let Some(e) = persist {
                    log.push(e);
                }
                contents = LlmRunner::handle_function_call(tool_calls, &|(name, args)| {
                    format!("{} ran with {}", name, args)
                });
                store = next;
            }
            TurnOutcome::Finished { persist } => {
                if let Some(e) = persist {
                    log.push(e);
                }
                break;
            }
        }
    }
    sizes
}

#[test]
fn runner_test_is_sync_and_send() {
    fn is_sync<T: Sync>() {}
    fn is_send<T: Send>() {}

    is_sync::<LlmRunner>();
    is_send::<LlmRunner>();
}

#[test]
fn a_tool_loop_is_logged_in_order() {
    let mut log: Vec<CacheEntry> = vec![];
    let tool = call("call_1", "create_file", "{\"file_path\":\"a.txt\"}");
    let sizes = run_turn(
        &mut log,
        vec![input(InputKind::ViewSelection, "the question")],
        true,
        vec![
            response(None, Some(vec![tool.clone()])),
            response(Some("Some Content"), None),
        ],
    );
    let mut asked = entry(Roles::Assistant, None);
    asked.tool_calls = Some(vec![tool]);
    let mut answered = entry(
        Roles::Tool,
        Some("create_file ran with {\"file_path\":\"a.txt\"}"),
    );
    answered.tool_call_id = Some("call_1".to_string());
    assert_eq!(
        log,
        vec![
            entry(Roles::User, Some("the question")),
            asked,
            answered,
            entry(Roles::Assistant, Some("Some Content")),
        ]
    );
    assert_eq!(sizes, vec![1, 3]);
}

#[test]
fn the_leg_after_tool_calls_is_logged_whatever_was_asked() {
    let mut log: Vec<CacheEntry> = vec![];
    let tool = call("call_1", "read_region_content", "{}");
    run_turn(
        &mut log,
        vec![input(InputKind::Command, "the question")],
        false,
        vec![response(None, Some(vec![tool])), response(Some("done"), None)],
    );
    let mut answered = entry(Roles::Tool, Some("read_region_content ran with {}"));
    answered.tool_call_id = Some("call_1".to_string());
    assert_eq!(log, vec![answered, entry(Roles::Assistant, Some("done"))]);
}

#[test]
fn a_turn_that_is_not_kept_leaves_the_log_alone() {
    let mut log: Vec<CacheEntry> = vec![entry(Roles::User, Some("old"))];
    run_turn(
        &mut log,
        vec![input(InputKind::Command, "the question")],
        false,
        vec![response(Some("answer"), None)],
    );
    assert_eq!(log, vec![entry(Roles::User, Some("old"))]);
}

#[test]
fn sheets_are_never_logged() {
    let contents = vec![
        input(InputKind::Sheet, "reference"),
        input(InputKind::Command, "do it"),
        input(InputKind::AssistantResponse, "earlier answer"),
        input(InputKind::Sheet, "more reference"),
        input(InputKind::Terminus, "output"),
    ];
    assert_eq!(
        LlmRunner::entries_to_store(&contents, true),
        vec![
            entry(Roles::User, Some("do it")),
            entry(Roles::Assistant, Some("earlier answer")),
            entry(Roles::User, Some("output")),
        ]
    );
    assert_eq!(LlmRunner::entries_to_store(&contents, false), vec![]);
    assert_eq!(LlmRunner::entries_to_store(&vec![], true), vec![]);
}

#[test]
fn tool_calls_are_answered_in_order() {
    let calls = vec![call("a", "first", "1"), call("b", "second", "2")];
    let results = LlmRunner::handle_function_call(calls, &|(name, args)| format!("{}:{}", name, args));
    assert_eq!(
        results,
        vec![
            SublimeInputContent {
                content: Some("first:1".to_string()),
                path: None,
                scope: None,
                input_kind: InputKind::FunctionResult,
                tool_id: Some("a".to_string()),
            },
            SublimeInputContent {
                content: Some("second:2".to_string()),
                path: None,
                scope: None,
                input_kind: InputKind::FunctionResult,
                tool_id: Some("b".to_string()),
            },
        ]
    );
    let one = LlmRunner::pick_function(call("c", "third", "3"), &|(name, _)| name);
    assert_eq!(one.content, Some("third".to_string()));
    assert_eq!(one.tool_id, Some("c".to_string()));
    assert_eq!(
        LlmRunner::tool_result(call("d", "f", "{}"), "Success".to_string()),
        SublimeInputContent {
            content: Some("Success".to_string()),
            path: None,
            scope: None,
            input_kind: InputKind::FunctionResult,
            tool_id: Some("d".to_string()),
        }
    );
    assert_eq!(
        LlmRunner::handle_function_call(vec![], &|(name, _)| name),
        vec![]
    );
}

#[test]
fn a_response_decides_how_the_turn_goes_on() {
    let tool = call("call_1", "create_file", "{}");
    let mut asked = entry(Roles::Assistant, Some("calling"));
    asked.tool_calls = Some(vec![tool.clone()]);
    assert_eq!(
        LlmRunner::after_response(response(Some("calling"), Some(vec![tool.clone()])), true),
        TurnOutcome::CallTools {
            persist: Some(asked),
            tool_calls: vec![tool.clone()],
            store: true
        }
    );
    assert_eq!(
        LlmRunner::after_response(response(None, Some(vec![tool.clone()])), false),
        TurnOutcome::CallTools { persist: None, tool_calls: vec![tool], store: true }
    );
    assert_eq!(
        LlmRunner::after_response(response(Some("plain"), None), true),
        TurnOutcome::Finished { persist: Some(entry(Roles::Assistant, Some("plain"))) }
    );
    assert_eq!(
        LlmRunner::after_response(response(Some("plain"), None), false),
        TurnOutcome::Finished { persist: None }
    );
    let mut empty = response(None, None);
    empty.choices = vec![];
    assert_eq!(
        LlmRunner::after_response(empty, false),
        TurnOutcome::Finished { persist: None }
    );
}

#[test]
fn tool_results_are_sent_as_tool_messages() {
    let results = LlmRunner::handle_function_call(vec![call("a", "first", "1")], &|_args| {
        "Success".to_string()
    });
    let mut settings = AssistantSettings::default();
    settings.api_type = ApiType::OpenAi;
    let request = OpenAICompletionRequest::create_openai_completion_request(
        settings,
        vec![],
        results,
        vec![],
    );
    match &request.messages[0] {
        OpenAIRequestMessage::OpenAIMessage(m) => {
            assert_eq!(m.role, Roles::Tool);
            assert_eq!(m.tool_call_id, Some("a".to_string()));
        }
        _ => panic!("expected a structured message"),
    }
}
