use llm_runner::json::{parse_json, Json, ParseFailure};
use llm_runner::network_client::{
    failure_report, immediate_content, NetworkClient, StreamEvent, StreamSession, StreamStep,
};
use llm_runner::openai_network_types::{
    ContentWrapper, ErrorResponse, MessageContent, MessageKind, OpenAIError,
    OpenAIErrorContainer, OpenAIMessage, OpenAIMessageType, OpenAIRequestMessage,
    OtherErrorContainer, Roles,
};
use llm_runner::types::{ApiType, AssistantSettings, InputKind, SublimeInputContent};

fn json(text: &str) -> Json {
    parse_json(text).unwrap()
}

fn content_chunk(text: &str) -> String {
    format!(
        "{{\"choices\":[{{\"delta\":{{\"content\":\"{}\",\"role\":\"assistant\",\"tool_calls\":null}},\"finish_reason\":null,\"index\":0}}],\"created\":1734374933,\"id\":\"cmpl-9775b1b7-0746-470e-a541-e0cc8f73bcce\",\"model\":\"Llama-3.3-70B-Instruct\",\"object\":\"chat.completion.chunk\",\"usage\":null}}",
        text
    )
}

fn content_of(response: &Json) -> String {
    response
        .get("choices")
        .unwrap()
        .first()
        .unwrap()
        .get("delta")
        .unwrap()
        .get("content")
        .unwrap()
        .as_text()
        .unwrap()
        .clone()
}

fn run(payloads: &[String], cancel_after: Option<usize>) -> (Json, Vec<String>) {
    let mut session = StreamSession::new();
    let mut sink: Vec<String> = vec![];
    let mut cancelled = false;
    for (n, payload) in payloads.iter().enumerate() {
        if cancel_after == Some(n) {
            cancelled = true;
        }
        let step = session.on_event(StreamEvent::Data(payload.clone()), cancelled);
        if let Some(delta) = step.delta {
            sink.push(delta);
        }
        if step.finished {
            break;
        }
    }
    let (response, marker) = session.finish(cancelled);
    if let Some(marker) = marker {
        sink.push(marker);
    }
    (response, sink)
}

#[test]
fn network_client_test_is_sync_and_send() {
    fn is_sync<T: Sync>() {}
    fn is_send<T: Send>() {}

    is_sync::<NetworkClient>();
    is_send::<NetworkClient>();
}

#[test]
fn streamed_content_is_forwarded_and_assembled_in_order() {
    let payloads = vec![
        content_chunk("The"),
        content_chunk(" "),
        content_chunk("202"),
        "[DONE]".to_string(),
    ];
    let (response, sink) = run(&payloads, None);
    assert_eq!(sink, vec!["The", " ", "202"]);
    assert_eq!(content_of(&response), "The 202");
    assert_eq!(content_of(&response), sink.join(""));
}

#[test]
fn streamed_tool_calls_forward_the_name_once() {
    let payloads: Vec<String> = vec![
        r#"{"id":"8f18fa2f381e5b8e-VIE","object":"chat.completion.chunk","created":1734124608,"model":"model","choices":[{"index":0,"delta":{"role":"assistant","content":null},"logprobs":null,"finish_reason":null}]}"#,
        r#"{"id":"8f18fa2f381e5b8e-VIE","object":"chat.completion.chunk","created":1734124608,"model":"model","choices":[{"index":0,"delta":{"tool_calls":[{"index":0,"id":"call_hozqwzmegi9la14u8wmizj35","type":"function","function":{"name":"create_file","arguments":""}}]},"logprobs":null,"finish_reason":null}]}"#,
        r#"{"id":"8f18fa2f381e5b8e-VIE","object":"chat.completion.chunk","created":1734124608,"model":"model","choices":[{"index":0,"delta":{"tool_calls":[{"index":0,"function":{"arguments":"{\""}}]},"logprobs":null,"finish_reason":null}]}"#,
        r#"{"id":"8f18fa2f381e5b8e-VIE","object":"chat.completion.chunk","created":1734124608,"model":"model","choices":[{"index":0,"delta":{"tool_calls":[{"index":0,"function":{"arguments":"file\""}}]},"logprobs":null,"finish_reason":null}]}"#,
        r#"{"id":"8f18fa2f381e5b8e-VIE","object":"chat.completion.chunk","created":1734124608,"model":"model","choices":[{"index":0,"delta":{"tool_calls":[{"index":0,"function":{"arguments":": "}}]},"logprobs":null,"finish_reason":null}]}"#,
        r#"{"id":"8f18fa2f381e5b8e-VIE","object":"chat.completion.chunk","created":1734124608,"model":"model","choices":[{"index":0,"delta":{"tool_calls":[{"index":0,"function":{"arguments":"\"some\"}"}}]},"logprobs":null,"finish_reason":null}]}"#,
        "[DONE]",
    ]
    .into_iter()
    .map(|s| s.to_string())
    .collect();
    let (response, sink) = run(&payloads, None);
    assert_eq!(sink.join(""), "create_file");
    assert_eq!(sink, vec!["create_file"]);
    let calls = response
        .get("choices")
        .unwrap()
        .first()
        .unwrap()
        .get("delta")
        .unwrap()
        .get("tool_calls")
        .unwrap();
    let call = calls.first().unwrap();
    assert_eq!(
        call.get("function").unwrap().get("name").unwrap().as_text().unwrap(),
        "create_file"
    );
    assert_eq!(
        call.get("function").unwrap().get("arguments").unwrap().as_text().unwrap(),
        "{\"file\": \"some\"}"
    );
    match calls {
        Json::Array(items) => assert_eq!(items.len(), 1),
        _ => panic!("tool_calls is no array"),
    }
}

#[test]
fn cancelling_closes_with_the_abort_marker() {
    let payloads = vec![
        content_chunk("The"),
        content_chunk(" "),
        content_chunk("FAIL"),
        "[DONE]".to_string(),
    ];
    let (response, sink) = run(&payloads, Some(1));
    assert!(sink.contains(&"\n[ABORTED]".to_string()));
    assert_eq!(sink, vec!["The", " ", "\n[ABORTED]"]);
    assert_eq!(content_of(&response), "The ");

    let (response, sink) = run(&payloads, Some(0));
    assert_eq!(sink, vec!["The", "\n[ABORTED]"]);
    assert_eq!(content_of(&response), "The");

    let (response, marker) = StreamSession::new().finish(true);
    assert_eq!(marker, Some("\n[ABORTED]".to_string()));
    assert_eq!(response, json("{}"));
    let (_, marker) = StreamSession::new().finish(false);
    assert_eq!(marker, None);
}

#[test]
fn a_stall_closes_with_the_stall_marker() {
    let mut session = StreamSession::new();
    let step = session.on_event(StreamEvent::Data(content_chunk("The")), false);
    assert_eq!(step, StreamStep { delta: Some("The".to_string()), finished: false });
    let step = session.on_event(StreamEvent::TimedOut, false);
    assert_eq!(step, StreamStep { delta: Some("\n[STALLED]".to_string()), finished: true });
    let (response, marker) = session.finish(false);
    assert_eq!(marker, None);
    assert_eq!(content_of(&response), "The");
}

#[test]
fn the_transport_ending_or_failing_stops_silently() {
    let mut session = StreamSession::new();
    assert_eq!(
        session.on_event(StreamEvent::Exhausted, false),
        StreamStep { delta: None, finished: true }
    );
    assert_eq!(
        session.on_event(StreamEvent::Failed, false),
        StreamStep { delta: None, finished: true }
    );
    assert_eq!(session, StreamSession::new());
}

#[test]
fn a_populated_usage_ends_the_stream() {
    let mut session = StreamSession::new();
    session.on_event(StreamEvent::Data(content_chunk("The")), false);
    let before = session.composable.duplicate();
    let step = session.on_event(
        StreamEvent::Data(
            r#"{"choices":[{"delta":{"content":"late"}}],"usage":{"total_tokens":5}}"#.to_string(),
        ),
        false,
    );
    assert_eq!(step, StreamStep { delta: None, finished: true });
    assert_eq!(session.composable, before);
}

#[test]
fn the_end_marker_stops_reading() {
    let mut session = StreamSession::new();
    let step = session.on_event(StreamEvent::Data("[DONE]".to_string()), false);
    assert_eq!(step, StreamStep { delta: None, finished: true });
    assert_eq!(session.buffer, "");
    let step = session.on_event(StreamEvent::Data("not json".to_string()), false);
    assert_eq!(step, StreamStep { delta: None, finished: false });
}

#[test]
fn a_payload_that_ends_early_is_buffered() {
    let whole = content_chunk("The");
    let (head, tail) = whole.split_at(40);
    let mut session = StreamSession::new();
    let step = session.on_event(StreamEvent::Data(head.to_string()), false);
    assert_eq!(step, StreamStep { delta: None, finished: false });
    assert_eq!(session.buffer, head);
    let step = session.on_event(StreamEvent::Data(tail.to_string()), false);
    assert_eq!(step, StreamStep { delta: None, finished: false });
    assert_eq!(session.buffer, head);
    assert_eq!(session.composable, json("{}"));

    let mut session = StreamSession::new();
    session.buffer = whole.clone();
    let step = session.on_event(StreamEvent::Data(content_chunk("passed over")), false);
    assert_eq!(step, StreamStep { delta: Some("The".to_string()), finished: false });
    assert_eq!(session.buffer, "");
    assert_eq!(content_of(&session.composable), "The");
}

#[test]
fn absorbing_goes_by_the_parse_results_handed_in() {
    let mut session = StreamSession::new();
    let step = session.absorb(
        Err(ParseFailure::Incomplete),
        Ok(json(r#"{"choices":[{"delta":{"content":"Hi"}}]}"#)),
        "ignored [DONE]",
        false,
    );
    assert_eq!(step, StreamStep { delta: Some("Hi".to_string()), finished: true });
    let step = session.absorb(Err(ParseFailure::Malformed), Err(ParseFailure::Incomplete), "{\"a", false);
    assert_eq!(step, StreamStep { delta: None, finished: false });
    assert_eq!(session.buffer, "{\"a");
    let step = session.absorb(Err(ParseFailure::Malformed), Err(ParseFailure::Malformed), "zz", true);
    assert_eq!(step, StreamStep { delta: None, finished: true });
    assert_eq!(session.buffer, "{\"a");
}

#[test]
fn an_unstreamed_response_shows_its_content() {
    let body = json(
        r#"{"model":"some_model","id":"some_id","created":367123,"choices":[{"index":0,"message":{"role":"assistant","content":"Some Content","refusal":null},"logprobs":null,"finish_reason":"stop"}]}"#,
    );
    assert_eq!(immediate_content(&body), Some("Some Content".to_string()));
    assert_eq!(immediate_content(&json(r#"{"id": "1", "object": "object"}"#)), None);
    assert_eq!(
        immediate_content(&json(r#"{"choices":[{"message":{"content":null}}]}"#)),
        None
    );
    assert_eq!(immediate_content(&json(r#"{"choices":[]}"#)), None);
}

#[test]
fn a_refusal_is_decoded_in_a_fixed_order() {
    assert_eq!(
        failure_report(
            "401 Unauthorized",
            r#"{"error": {"message": "Incorrect API key", "type": "invalid_request_error"}}"#
        ),
        "Request failed with status: 401 Unauthorized, the error: Incorrect API key"
    );
    assert_eq!(
        failure_report("500 Internal Server Error", r#"{"error": "model is down"}"#),
        "Request failed with status: 500 Internal Server Error, the error: model is down"
    );
    assert_eq!(
        failure_report("502 Bad Gateway", "<html>bad gateway</html>"),
        "Request failed with status: 502 Bad Gateway, the error: <html>bad gateway</html>"
    );
    assert_eq!(
        failure_report("500 Internal Server Error", r#"{"error": {"code": 5}}"#),
        "Request failed with status: 500 Internal Server Error, the error: {\"error\": {\"code\": 5}}"
    );
    assert_eq!(
        ErrorResponse::decode(&parse_json(r#"{"error": {"message": "m"}}"#), "b"),
        ErrorResponse::OpenAI(OpenAIErrorContainer {
            error: OpenAIError { message: "m".to_string() }
        })
    );
    assert_eq!(
        ErrorResponse::decode(&parse_json(r#"{"error": "e"}"#), "b"),
        ErrorResponse::Other(OtherErrorContainer { error: "e".to_string() })
    );
    assert_eq!(
        ErrorResponse::decode(&parse_json("["), "["),
        ErrorResponse::Message("[".to_string())
    );
    assert_eq!(ErrorResponse::Message("raw".to_string()).message(), "raw");
    assert_eq!(
        OtherErrorContainer { error: "e".to_string() }.message(),
        "e"
    );
}

#[test]
fn the_token_becomes_a_bearer_header() {
    let mut settings = AssistantSettings::default();
    assert_eq!(NetworkClient::authorization(&settings), None);
    settings.token = Some("some_token".to_string());
    assert_eq!(
        NetworkClient::authorization(&settings),
        Some("Bearer some_token".to_string())
    );
    assert_eq!(NetworkClient::new(10).timeout, 10);
}

#[test]
fn the_payload_of_one_selection() {
    let client = NetworkClient::new(10);
    let mut settings = AssistantSettings::default();
    settings.api_type = ApiType::OpenAi;

    let sublime_inputs = vec![SublimeInputContent {
        content: Some("content".to_string()),
        path: None,
        scope: None,
        input_kind: InputKind::ViewSelection,
        tool_id: None,
    }];

    let payload = client.prepare_payload(settings, vec![], sublime_inputs, vec![]);

    assert_eq!(
        payload.messages,
        vec![OpenAIRequestMessage::OpenAIMessage(OpenAIMessage {
            content: Some(vec![MessageContent {
                kind: OpenAIMessageType::Text,
                content: ContentWrapper::Text("content".to_string()),
            }]),
            role: Roles::User,
            tool_call_id: None,
            tool_calls: None,
            name: None,
            kind: MessageKind::ViewSelection,
        })]
    );
    assert!(payload.stream);
    assert_eq!(payload.chat_model, "gpt-4o-mini");
    assert_eq!(payload.temperature, None);
    assert_eq!(payload.tools, None);
}
