use llm_runner::assembler::{
    handle_json, merge_json, merge_tool_call, merge_tool_calls, obtain_delta,
};
use llm_runner::json::{parse_json, Json, JsonNumber, ParseFailure};

fn json(text: &str) -> Json {
    parse_json(text).unwrap()
}

fn merged(base: &str, addition: &str) -> Json {
    let mut base = json(base);
    merge_json(&mut base, &json(addition));
    base
}

#[test]
fn parsing_keeps_what_the_text_says() {
    let value = json(r#"{"b": [1, -2, 1.5, true, null], "a": "x"}"#);
    assert_eq!(
        value,
        Json::Object(vec![
            ("a".to_string(), Json::Str("x".to_string())),
            (
                "b".to_string(),
                Json::Array(vec![
                    Json::Number(JsonNumber::Unsigned(1)),
                    Json::Number(JsonNumber::Signed(-2)),
                    Json::Number(JsonNumber::Decimal("1.5".to_string())),
                    Json::Bool(true),
                    Json::Null,
                ])
            ),
        ])
    );
    assert_eq!(value.duplicate(), value);
    assert_eq!(parse_json("{\"a\": "), Err(ParseFailure::Incomplete));
    assert_eq!(parse_json(""), Err(ParseFailure::Incomplete));
    assert_eq!(parse_json("{ id: 2 }"), Err(ParseFailure::Malformed));
    assert_eq!(parse_json("[DONE]"), Err(ParseFailure::Malformed));
}

#[test]
fn a_parsed_object_holds_each_key_once() {
    let value = json(r#"{"a": 1, "b": {"c": 1, "c": 2}, "a": 3}"#);
    assert_eq!(
        value,
        Json::Object(vec![
            ("a".to_string(), Json::Number(JsonNumber::Unsigned(3))),
            (
                "b".to_string(),
                Json::Object(vec![("c".to_string(), Json::Number(JsonNumber::Unsigned(2)))])
            ),
        ])
    );
    let merged = merged(r#"{"b": 1, "a": 2}"#, r#"{"a": {"x": 1}, "c": 3, "b": 4}"#);
    match merged {
        Json::Object(members) => {
            let keys: Vec<&str> = members.iter().map(|(k, _)| k.as_str()).collect();
            assert_eq!(keys, vec!["a", "b", "c"]);
        }
        _ => panic!("no object"),
    }
}

#[test]
fn accessors_read_objects_and_arrays() {
    let value = json(r#"{"n": 7, "s": "text", "list": [{"k": 1}], "none": null}"#);
    assert_eq!(value.get("n").unwrap().as_unsigned(), Some(7));
    assert_eq!(value.get("s").unwrap().as_text(), Some(&"text".to_string()));
    assert_eq!(value.get("s").unwrap().as_unsigned(), None);
    assert!(value.get("none").unwrap().is_null());
    assert!(!value.get("n").unwrap().is_null());
    assert_eq!(value.get("missing"), None);
    assert_eq!(value.get("list").unwrap().first(), Some(&json(r#"{"k": 1}"#)));
    assert_eq!(json("[]").first(), None);
    assert_eq!(json("3").get("n"), None);
    assert_eq!(json("3").first(), None);
    assert_eq!(Json::empty_object(), json("{}"));
}

#[test]
fn a_whole_response_merged_into_an_empty_object_is_unchanged() {
    let text = r#"{"id":"some_id","model":"some_model","created":367123,"choices":[{"index":0,"message":{"role":"assistant","content":"Some Content","refusal":null},"logprobs":null,"finish_reason":"stop"}]}"#;
    let mut accumulator = Json::empty_object();
    merge_json(&mut accumulator, &json(text));
    assert_eq!(accumulator, json(text));
}

#[test]
fn a_top_level_content_is_not_taken_into_an_empty_object() {
    let mut accumulator = Json::empty_object();
    merge_json(&mut accumulator, &json(r#"{"content": "x", "id": "1"}"#));
    assert_eq!(accumulator, json(r#"{"id": "1"}"#));
    let mut accumulator = Json::empty_object();
    merge_json(&mut accumulator, &json(r#"[1, 2]"#));
    assert_eq!(accumulator, json(r#"[1, 2]"#));
}

#[test]
fn content_is_appended_and_never_replaced() {
    assert_eq!(
        merged(r#"{"content": "The"}"#, r#"{"content": " 202"}"#),
        json(r#"{"content": "The 202"}"#)
    );
    assert_eq!(
        merged(r#"{"content": "The"}"#, r#"{"content": null}"#),
        json(r#"{"content": "The"}"#)
    );
    assert_eq!(merged(r#"{"a": 1}"#, r#"{"content": "x"}"#), json(r#"{"a": 1}"#));
    assert_eq!(merged(r#"{"a": 1}"#, r#"{"content": null}"#), json(r#"{"a": 1}"#));
    assert_eq!(
        merged(r#"{"content": 5}"#, r#"{"content": "x"}"#),
        json(r#"{"content": 5}"#)
    );
    assert_eq!(
        merged(r#"{"content": "x"}"#, r#"{"content": 5}"#),
        json(r#"{"content": "x"}"#)
    );
}

#[test]
fn other_keys_are_merged_or_overwritten() {
    assert_eq!(
        merged(r#"{"a": {"x": 1}}"#, r#"{"a": {"y": 2}, "b": 3}"#),
        json(r#"{"a": {"x": 1, "y": 2}, "b": 3}"#)
    );
    assert_eq!(merged(r#"{"a": 1}"#, r#"{"a": 2}"#), json(r#"{"a": 2}"#));
    assert_eq!(merged(r#"{"a": {"x": 1}}"#, r#"{"a": 2}"#), json(r#"{"a": 2}"#));
    assert_eq!(merged(r#"{"a": 1}"#, r#"[1]"#), json(r#"[1]"#));
    assert_eq!(merged(r#"7"#, r#"{"a": 1}"#), json(r#"{"a": 1}"#));
    assert_eq!(
        merged(r#"{"delta": null}"#, r#"{"delta": {"content": "The"}}"#),
        json(r#"{"delta": {"content": "The"}}"#)
    );
}

#[test]
fn arrays_merge_their_first_items_only() {
    assert_eq!(
        merged(r#"[{"a": 1}, {"b": 2}]"#, r#"[{"c": 3}, {"d": 4}]"#),
        json(r#"[{"a": 1, "c": 3}, {"b": 2}]"#)
    );
    assert_eq!(merged(r#"[]"#, r#"[{"c": 3}]"#), json(r#"[]"#));
    assert_eq!(merged(r#"[{"a": 1}]"#, r#"[]"#), json(r#"[{"a": 1}]"#));
}

#[test]
fn tool_calls_are_installed_then_merged_by_index() {
    let first = merged(
        r#"{"role": "assistant"}"#,
        r#"{"tool_calls": [{"index": 0, "id": "call_1", "type": "function", "function": {"name": "create_file", "arguments": ""}}]}"#,
    );
    assert_eq!(
        first,
        json(
            r#"{"role": "assistant", "tool_calls": [{"index": 0, "id": "call_1", "type": "function", "function": {"name": "create_file", "arguments": ""}}]}"#
        )
    );
    let mut accumulator = first;
    for fragment in ["{\\\"", "file\\\"", ": \\\"some\\\"}"] {
        let addition = format!(
            "{{\"tool_calls\": [{{\"index\": 0, \"function\": {{\"arguments\": \"{}\"}}}}]}}",
            fragment
        );
        merge_json(&mut accumulator, &json(&addition));
    }
    let call = accumulator.get("tool_calls").unwrap().first().unwrap();
    assert_eq!(
        call.get("function").unwrap().get("arguments").unwrap().as_text(),
        Some(&"{\"file\": \"some\"}".to_string())
    );
    assert_eq!(
        call.get("function").unwrap().get("name").unwrap().as_text(),
        Some(&"create_file".to_string())
    );
    assert_eq!(call.get("id").unwrap().as_text(), Some(&"call_1".to_string()));
}

#[test]
fn tool_calls_grow_to_reach_an_index() {
    let mut calls = vec![json(r#"{"id": "a"}"#)];
    let additions = vec![json(r#"{"index": 2, "id": "c", "type": "function", "function": {"name": "f", "arguments": "{"}}"#)];
    merge_tool_calls(&mut calls, &additions);
    assert_eq!(
        calls,
        vec![
            json(r#"{"id": "a"}"#),
            json("{}"),
            json(r#"{"function": {"name": "f", "arguments": "{"}, "id": "c", "type": "function"}"#),
        ]
    );
    let expected = Json::Object(vec![
        (
            "function".to_string(),
            json(r#"{"arguments": "{", "name": "f"}"#),
        ),
        ("id".to_string(), Json::Str("c".to_string())),
        ("type".to_string(), Json::Str("function".to_string())),
    ]);
    assert_eq!(calls[2], expected);
}

#[test]
fn tool_call_fragments_without_a_usable_index() {
    let mut calls = vec![json(r#"{"id": "a", "function": {"name": "f"}}"#)];
    merge_tool_calls(&mut calls, &vec![json(r#"{"function": {"arguments": "x"}}"#)]);
    assert_eq!(
        calls,
        vec![Json::Object(vec![
            (
                "function".to_string(),
                Json::Object(vec![
                    ("name".to_string(), Json::Str("f".to_string())),
                    ("arguments".to_string(), Json::Str("x".to_string())),
                ])
            ),
            ("id".to_string(), Json::Str("a".to_string())),
        ])]
    );
    let before = vec![json(r#"{"id": "a"}"#)];
    let mut calls = vec![json(r#"{"id": "a"}"#)];
    merge_tool_calls(&mut calls, &vec![json(r#"{"index": "0", "id": "b"}"#)]);
    assert_eq!(calls, before);
    merge_tool_calls(&mut calls, &vec![json(r#"{"index": -1, "id": "b"}"#)]);
    assert_eq!(calls, before);
    let mut empty: Vec<Json> = vec![];
    merge_tool_calls(&mut empty, &vec![json(r#"{"id": "b"}"#)]);
    assert_eq!(empty, Vec::<Json>::new());
}

#[test]
fn a_tool_call_keeps_what_it_was_given_first() {
    let mut call = json(r#"{"id": "first", "type": "function", "function": {"name": "f", "arguments": "ab"}}"#);
    merge_tool_call(
        &mut call,
        &json(r#"{"id": "second", "type": "other", "function": {"name": "g", "arguments": "cd"}}"#),
    );
    assert_eq!(
        call,
        json(r#"{"id": "first", "type": "function", "function": {"name": "f", "arguments": "abcd"}}"#)
    );
    let mut bare = json("{}");
    merge_tool_call(&mut bare, &json(r#"{"function": {"arguments": "cd"}, "id": "x"}"#));
    assert_eq!(bare, json(r#"{"function": {"arguments": "cd"}, "id": "x"}"#));
    let mut number = json("5");
    merge_tool_call(&mut number, &json(r#"{"id": "x"}"#));
    assert_eq!(number, json("5"));
    let mut odd = json(r#"{"function": {"arguments": 5}}"#);
    merge_tool_call(&mut odd, &json(r#"{"function": {"arguments": "cd"}}"#));
    assert_eq!(odd, json(r#"{"function": {"arguments": 5}}"#));
}

#[test]
fn a_function_takes_its_name_from_the_first_fragment_that_brings_one() {
    let mut call = json(r#"{"function": {"arguments": "x"}}"#);
    merge_tool_call(&mut call, &json(r#"{"function": {"name": "f", "arguments": "y"}}"#));
    assert_eq!(call, json(r#"{"function": {"name": "f", "arguments": "xy"}}"#));
    merge_tool_call(&mut call, &json(r#"{"function": {"name": "g", "arguments": "z"}}"#));
    assert_eq!(call, json(r#"{"function": {"name": "f", "arguments": "xyz"}}"#));

    let mut call = json(r#"{"function": {}, "id": "a"}"#);
    merge_tool_call(&mut call, &json(r#"{"function": {"name": "f"}, "id": "b", "type": "function"}"#));
    assert_eq!(call, json(r#"{"function": {"name": "f"}, "id": "a", "type": "function"}"#));

    let mut call = json(r#"{"function": {"name": null}}"#);
    merge_tool_call(&mut call, &json(r#"{"function": {"name": "f"}}"#));
    assert_eq!(call, json(r#"{"function": {"name": null}}"#));

    let mut call = json(r#"{"function": "text"}"#);
    merge_tool_call(&mut call, &json(r#"{"function": {"name": "f", "arguments": "y"}}"#));
    assert_eq!(call, json(r#"{"function": "text"}"#));

    let mut calls = vec![json(r#"{"function": {"arguments": "x"}}"#)];
    merge_tool_calls(
        &mut calls,
        &vec![json(r#"{"index": 0, "function": {"name": "f", "arguments": "y"}}"#)],
    );
    assert_eq!(calls, vec![json(r#"{"function": {"name": "f", "arguments": "xy"}}"#)]);
}

#[test]
fn the_delta_is_the_content_or_the_function_name() {
    let choice = json(r#"{"delta": {"content": "The", "role": "assistant", "tool_calls": null}, "finish_reason": null, "index": 0}"#);
    assert_eq!(obtain_delta(&choice), Some("The".to_string()));
    let choice = json(r#"{"index": 0, "delta": {"tool_calls": [{"index": 0, "id": "call_1", "type": "function", "function": {"name": "create_file", "arguments": ""}}]}}"#);
    assert_eq!(obtain_delta(&choice), Some("create_file".to_string()));
    let choice = json(r#"{"index": 0, "delta": {"tool_calls": [{"index": 0, "function": {"arguments": "{\""}}]}}"#);
    assert_eq!(obtain_delta(&choice), None);
    let choice = json(r#"{"index": 0, "delta": {"role": "assistant", "content": null}}"#);
    assert_eq!(obtain_delta(&choice), None);
    let choice = json(r#"{"delta": {"tool_calls": [{"function": {"name": 5}}]}}"#);
    assert_eq!(obtain_delta(&choice), None);
    let nested = json(r#"{"a": {"delta": {"content": "deep"}}, "b": 1}"#);
    assert_eq!(obtain_delta(&nested), Some("deep".to_string()));
    assert_eq!(obtain_delta(&json("{}")), None);
    assert_eq!(obtain_delta(&json("[]")), None);
}

#[test]
fn a_fragment_is_merged_and_its_delta_handed_back() {
    let mut accumulator = Json::empty_object();
    let deltas: Vec<Option<String>> = ["The", " ", "202"]
        .iter()
        .map(|text| {
            let fragment = format!(
                "{{\"choices\":[{{\"delta\":{{\"content\":\"{}\",\"role\":\"assistant\",\"tool_calls\":null}},\"finish_reason\":null,\"index\":0}}],\"usage\":null}}",
                text
            );
            handle_json(&mut accumulator, &json(&fragment))
        })
        .collect();
    assert_eq!(
        deltas,
        vec![Some("The".to_string()), Some(" ".to_string()), Some("202".to_string())]
    );
    let content = accumulator
        .get("choices")
        .unwrap()
        .first()
        .unwrap()
        .get("delta")
        .unwrap()
        .get("content")
        .unwrap()
        .as_text()
        .unwrap()
        .clone();
    assert_eq!(content, "The 202");
    let before = accumulator.duplicate();
    let silent = handle_json(
        &mut accumulator,
        &json(r#"{"choices":[{"delta":{"content":null}}]}"#),
    );
    assert_eq!(silent, None);
    assert_eq!(accumulator, before);
    assert_eq!(handle_json(&mut accumulator, &json(r#"{"choices":[]}"#)), None);
    assert_eq!(handle_json(&mut accumulator, &json(r#"{"id": "x"}"#)), None);
}
