//! The stream relay: frame order, accounting-field stripping, the captured
//! log value, passthrough lines, and mid-stream failures.

use ai_gateway::json::JsonValue;
use ai_gateway::relay::RelayError;
use ai_gateway::relay::StreamRelay;
use ai_gateway::relay::relay_single;
use ai_gateway::relay::run_relay;

fn obj(entries: Vec<(&str, JsonValue)>) -> JsonValue {
    JsonValue::Obj(entries.into_iter().map(|(k, v)| (k.to_string(), v)).collect())
}

fn num(s: &str) -> JsonValue {
    JsonValue::Num(s.to_string())
}

#[test]
fn frames_in_order_and_stripped() {
    let mut relay = StreamRelay::new();
    let f1 = relay.relay_line("{\"id\":1,\"usage\":{\"t\":1}}").unwrap();
    let f2 = relay.relay_line("{\"id\":2,\"usage\":{\"t\":2}}").unwrap();
    let f3 = relay.relay_line("{\"id\":3}").unwrap();
    assert_eq!(f1, "{\"id\":1}\n");
    assert_eq!(f2, "{\"id\":2}\n");
    assert_eq!(f3, "{\"id\":3}\n");
}

#[test]
fn log_gets_last_element_unstripped() {
    let mut relay = StreamRelay::new();
    relay.relay_line("{\"id\":1,\"usage\":{\"t\":1}}").unwrap();
    relay.relay_line("{\"id\":2,\"usage\":{\"t\":7}}").unwrap();
    let logged = relay.finish().unwrap();
    let expected = obj(vec![
        ("id", num("2")),
        ("usage", obj(vec![("t", num("7"))])),
    ]);
    assert_eq!(logged, expected);
}

#[test]
fn passthrough_lines_forwarded_and_not_captured() {
    let mut relay = StreamRelay::new();
    assert_eq!(relay.relay_line("").unwrap(), "\n");
    assert_eq!(relay.relay_line("data: [DONE]").unwrap(), "data: [DONE]\n");
    assert!(relay.finish().is_none());
}

#[test]
fn sentinel_after_elements_keeps_last_element() {
    let mut relay = StreamRelay::new();
    relay.relay_line("{\"id\":9,\"usage\":{\"t\":3}}").unwrap();
    relay.relay_line("data: [DONE]").unwrap();
    let logged = relay.finish().unwrap();
    let expected = obj(vec![
        ("id", num("9")),
        ("usage", obj(vec![("t", num("3"))])),
    ]);
    assert_eq!(logged, expected);
}

#[test]
fn bad_element_fails_that_slot_and_keeps_sent_frames() {
    let lines: Vec<String> = vec![
        "{\"id\":1}".to_string(),
        "not json".to_string(),
        "{\"id\":3}".to_string(),
    ];
    let run = run_relay(&lines);
    assert!(run.failed);
    assert_eq!(run.frames, vec!["{\"id\":1}\n".to_string()]);
    assert_eq!(run.log_value, Some(obj(vec![("id", num("1"))])));
}

#[test]
fn bad_element_error_is_reported_per_line() {
    let mut relay = StreamRelay::new();
    assert_eq!(
        relay.relay_line("not json"),
        Err(RelayError::UnparsableElement)
    );
}

#[test]
fn whole_stream_relayed_one_frame_per_line() {
    let lines: Vec<String> = vec![
        "{\"a\":1,\"usage\":{\"t\":1}}".to_string(),
        "".to_string(),
        "{\"a\":2,\"usage\":{\"t\":2}}".to_string(),
        "data: [DONE]".to_string(),
    ];
    let run = run_relay(&lines);
    assert!(!run.failed);
    assert_eq!(
        run.frames,
        vec![
            "{\"a\":1}\n".to_string(),
            "\n".to_string(),
            "{\"a\":2}\n".to_string(),
            "data: [DONE]\n".to_string(),
        ]
    );
    let expected = obj(vec![
        ("a", num("2")),
        ("usage", obj(vec![("t", num("2"))])),
    ]);
    assert_eq!(run.log_value, Some(expected));
}

#[test]
fn reader_may_stop_after_any_prefix() {
    // A caller that goes away after two of five frames: nothing past the
    // second element is ever handed to the relay, and the log still gets
    // the last element actually observed.
    let upstream: Vec<String> = (1..=5)
        .map(|i| format!("{{\"id\":{i},\"usage\":{{\"t\":{i}}}}}"))
        .collect();
    let mut relay = StreamRelay::new();
    let mut delivered = 0;
    for line in upstream.iter() {
        if delivered == 2 {
            break;
        }
        relay.relay_line(line.as_str()).unwrap();
        delivered += 1;
    }
    assert_eq!(delivered, 2);
    let logged = relay.finish().unwrap();
    let expected = obj(vec![
        ("id", num("2")),
        ("usage", obj(vec![("t", num("2"))])),
    ]);
    assert_eq!(logged, expected);
}

#[test]
fn frames_are_reprinted_not_echoed() {
    // the relay parses and reprints each element: upstream whitespace does
    // not survive, so a frame is never just the input line handed back
    let mut relay = StreamRelay::new();
    let f = relay.relay_line("{ \"id\" : 1 ,\"usage\": 2 }").unwrap();
    assert_eq!(f, "{\"id\":1}\n");
}

#[test]
fn single_body_round_trip() {
    // Caller sees {id, choices}; the log keeps {choices, id, usage} whole.
    let body = "{\"id\":\"x\",\"choices\":[1,2],\"usage\":{\"total_tokens\":5}}";
    let ex = relay_single(body).unwrap();
    assert_eq!(ex.caller_body, "{\"choices\":[1,2],\"id\":\"x\"}");
    let expected_log = obj(vec![
        ("choices", JsonValue::Arr(vec![num("1"), num("2")])),
        ("id", JsonValue::Text("x".to_string())),
        ("usage", obj(vec![("total_tokens", num("5"))])),
    ]);
    assert_eq!(ex.log_value, expected_log);
}

#[test]
fn single_body_keeps_other_fields_in_order() {
    let body = "{\"a\":1,\"usage\":2,\"z\":3}";
    let ex = relay_single(body).unwrap();
    assert_eq!(ex.caller_body, "{\"a\":1,\"z\":3}");
}

#[test]
fn single_non_object_passes_unchanged() {
    let ex = relay_single("[1,2,3]").unwrap();
    assert_eq!(ex.caller_body, "[1,2,3]");
    assert_eq!(ex.log_value, JsonValue::Arr(vec![num("1"), num("2"), num("3")]));
}

#[test]
fn single_bad_body_is_an_error() {
    assert_eq!(relay_single("nope"), Err(RelayError::UnparsableElement));
}
