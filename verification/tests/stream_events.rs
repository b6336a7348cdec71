use anthropic_ai_sdk::error::MessageError;
use anthropic_ai_sdk::json::JsonValue;
use anthropic_ai_sdk::messages::{
    decode_events, decode_frames, decode_payload, event_from_parsed, Decoded, EventDecoder,
};
use anthropic_ai_sdk::sse::SseFrame;
use anthropic_ai_sdk::types::message::{ContentBlock, ContentDelta, StreamEvent};

fn answer() -> String {
    [
        "event: message_start",
        "data: {\"type\":\"message_start\",\"message\":{\"id\":\"msg_1\",\"type\":\"message\",\"role\":\"assistant\",\"content\":[],\"model\":\"sonnet-latest\",\"stop_reason\":null,\"stop_sequence\":null,\"usage\":{\"input_tokens\":25,\"output_tokens\":1}}}",
        "",
        "event: content_block_start",
        "data: {\"type\":\"content_block_start\",\"index\":0,\"content_block\":{\"type\":\"text\",\"text\":\"\"}}",
        "",
        "event: ping",
        "data: {\"type\": \"ping\"}",
        "",
        "event: content_block_delta",
        "data: {\"type\":\"content_block_delta\",\"index\":0,\"delta\":{\"type\":\"text_delta\",\"text\":\"Hello\"}}",
        "",
        "event: content_block_delta",
        "data: {\"type\":\"content_block_delta\",\"index\":0,\"delta\":{\"type\":\"text_delta\",\"text\":\"!\"}}",
        "",
        "event: content_block_stop",
        "data: {\"type\":\"content_block_stop\",\"index\":0}",
        "",
        "event: message_delta",
        "data: {\"type\":\"message_delta\",\"delta\":{\"stop_reason\":\"end_turn\",\"stop_sequence\":null},\"usage\":{\"output_tokens\":15}}",
        "",
        "event: message_stop",
        "data: {\"type\":\"message_stop\"}",
        "",
        "",
    ]
    .join("\n")
}

fn answer_events() -> Vec<StreamEvent> {
    vec![
        StreamEvent::MessageStart {
            id: "msg_1".to_string(),
            model: "sonnet-latest".to_string(),
            role: "assistant".to_string(),
            input_tokens: 25,
            output_tokens: 1,
        },
        StreamEvent::ContentBlockStart {
            index: 0,
            content_block: ContentBlock::Text { text: String::new() },
        },
        StreamEvent::Ping,
        StreamEvent::ContentBlockDelta {
            index: 0,
            delta: ContentDelta::TextDelta { text: "Hello".to_string() },
        },
        StreamEvent::ContentBlockDelta {
            index: 0,
            delta: ContentDelta::TextDelta { text: "!".to_string() },
        },
        StreamEvent::ContentBlockStop { index: 0 },
        StreamEvent::MessageDelta {
            stop_reason: Some("end_turn".to_string()),
            stop_sequence: None,
            output_tokens: 15,
        },
        StreamEvent::MessageStop,
    ]
}

fn payload(text: &str) -> Result<StreamEvent, MessageError> {
    decode_payload(text.as_bytes())
}

fn parse_failure(e: MessageError) -> (String, String) {
    match e {
        MessageError::ParseFailed { payload, reason } => (payload, reason),
        other => panic!("not a parse failure: {:?}", other),
    }
}

#[test]
fn whole_answer_decodes_event_by_event() {
    let decoded = decode_events(answer().as_bytes());
    assert_eq!(decoded, Decoded { events: answer_events(), failure: None });
}

#[test]
fn one_event_for_every_frame_with_a_valid_payload() {
    let body = "event: a\ndata: {\"type\":\"ping\"}\n\nevent: b\n\nevent: c\ndata: {\"type\":\"message_stop\"}\n\n: note\n\ndata: {\"type\":\"ping\"}\n\n";
    let decoded = decode_events(body.as_bytes());
    assert_eq!(decoded.events.len(), 3);
    assert_eq!(decoded.events, vec![StreamEvent::Ping, StreamEvent::MessageStop, StreamEvent::Ping]);
    assert_eq!(decoded.failure, None);
}

#[test]
fn malformed_payload_ends_the_sequence_and_keeps_what_came_before() {
    let body = "data: {\"type\":\"ping\"}\n\ndata: {\"type\":\"message_stop\"}\n\ndata: {not json\n\ndata: {\"type\":\"ping\"}\n\n";
    let decoded = decode_events(body.as_bytes());
    assert_eq!(decoded.events, vec![StreamEvent::Ping, StreamEvent::MessageStop]);
    let (payload, reason) = parse_failure(decoded.failure.expect("the third frame fails"));
    assert_eq!(payload, "{not json");
    assert_eq!(reason, "key must be a string at line 1 column 2");
}

#[test]
fn failure_message_names_the_reason_and_the_payload() {
    let e = payload("{not json").unwrap_err();
    assert_eq!(
        e.to_string(),
        "Failed to parse SSE event: key must be a string at line 1 column 2. Event data: {not json"
    );
}

#[test]
fn empty_payload_is_a_failure() {
    let decoded = decode_events(b"data\n\ndata: {\"type\":\"ping\"}\n\n");
    assert_eq!(decoded.events, Vec::<StreamEvent>::new());
    let (payload, reason) = parse_failure(decoded.failure.unwrap());
    assert_eq!(payload, "");
    assert_eq!(reason, "EOF while parsing a value at line 1 column 0");
}

#[test]
fn json_that_describes_no_event_is_a_failure() {
    for text in [
        "{\"type\":\"unheard_of\"}",
        "{\"kind\":\"ping\"}",
        "[\"ping\"]",
        "\"ping\"",
        "{\"type\":7}",
        "{\"type\":\"content_block_stop\"}",
        "{\"type\":\"content_block_stop\",\"index\":-1}",
        "{\"type\":\"content_block_stop\",\"index\":4294967296}",
        "{\"type\":\"content_block_stop\",\"index\":1.5}",
        "{\"type\":\"content_block_stop\",\"index\":\"0\"}",
        "{\"type\":\"content_block_delta\",\"index\":0,\"delta\":{\"type\":\"text_delta\"}}",
        "{\"type\":\"content_block_delta\",\"index\":0,\"delta\":{\"type\":\"other\",\"text\":\"x\"}}",
        "{\"type\":\"content_block_start\",\"index\":0}",
        "{\"type\":\"message_start\",\"message\":{\"id\":\"m\",\"model\":\"x\",\"role\":\"assistant\"}}",
        "{\"type\":\"message_delta\",\"delta\":{\"stop_reason\":3},\"usage\":{\"output_tokens\":1}}",
        "{\"type\":\"error\",\"error\":{\"type\":\"overloaded_error\"}}",
    ] {
        let (payload_text, reason) = parse_failure(payload(text).unwrap_err());
        assert_eq!(payload_text, text);
        assert_eq!(reason, "payload does not describe a known event", "{}", text);
    }
}

#[test]
fn every_kind_of_event_decodes() {
    assert_eq!(payload("{\"type\":\"ping\"}"), Ok(StreamEvent::Ping));
    assert_eq!(payload("{\"type\":\"message_stop\"}"), Ok(StreamEvent::MessageStop));
    assert_eq!(
        payload("{\"type\":\"content_block_stop\",\"index\":4294967295}"),
        Ok(StreamEvent::ContentBlockStop { index: 4294967295 })
    );
    assert_eq!(
        payload("{\"type\":\"error\",\"error\":{\"type\":\"overloaded_error\",\"message\":\"Overloaded\"}}"),
        Ok(StreamEvent::Error { kind: "overloaded_error".to_string(), message: "Overloaded".to_string() })
    );
    assert_eq!(
        payload("{\"type\":\"message_delta\",\"delta\":{\"stop_sequence\":\"STOP\"},\"usage\":{\"output_tokens\":0}}"),
        Ok(StreamEvent::MessageDelta {
            stop_reason: None,
            stop_sequence: Some("STOP".to_string()),
            output_tokens: 0,
        })
    );
    assert_eq!(
        payload("{\"type\":\"content_block_start\",\"index\":1,\"content_block\":{\"type\":\"tool_use\",\"id\":\"toolu_1\",\"name\":\"get_weather\",\"input\":{}}}"),
        Ok(StreamEvent::ContentBlockStart {
            index: 1,
            content_block: ContentBlock::ToolUse {
                id: "toolu_1".to_string(),
                name: "get_weather".to_string(),
            },
        })
    );
    assert_eq!(
        payload("{\"type\":\"content_block_start\",\"index\":0,\"content_block\":{\"type\":\"thinking\",\"thinking\":\"\"}}"),
        Ok(StreamEvent::ContentBlockStart {
            index: 0,
            content_block: ContentBlock::Thinking { thinking: String::new() },
        })
    );
    assert_eq!(
        payload("{\"type\":\"content_block_delta\",\"index\":1,\"delta\":{\"type\":\"input_json_delta\",\"partial_json\":\"{\\\"location\\\":\"}}"),
        Ok(StreamEvent::ContentBlockDelta {
            index: 1,
            delta: ContentDelta::InputJsonDelta { partial_json: "{\"location\":".to_string() },
        })
    );
    assert_eq!(
        payload("{\"type\":\"content_block_delta\",\"index\":0,\"delta\":{\"type\":\"thinking_delta\",\"thinking\":\"Let me see\"}}"),
        Ok(StreamEvent::ContentBlockDelta {
            index: 0,
            delta: ContentDelta::ThinkingDelta { thinking: "Let me see".to_string() },
        })
    );
    assert_eq!(
        payload("{\"type\":\"content_block_delta\",\"index\":0,\"delta\":{\"type\":\"signature_delta\",\"signature\":\"EqQB\"}}"),
        Ok(StreamEvent::ContentBlockDelta {
            index: 0,
            delta: ContentDelta::SignatureDelta { signature: "EqQB".to_string() },
        })
    );
}

#[test]
fn later_member_of_a_name_is_the_one_that_counts() {
    assert_eq!(
        payload("{\"type\":\"ping\",\"type\":\"message_stop\"}"),
        Ok(StreamEvent::MessageStop)
    );
}

#[test]
fn payload_text_keeps_characters_beyond_ascii() {
    assert_eq!(
        payload("{\"type\":\"content_block_delta\",\"index\":0,\"delta\":{\"type\":\"text_delta\",\"text\":\"caf\u{e9} \u{2713}\"}}"),
        Ok(StreamEvent::ContentBlockDelta {
            index: 0,
            delta: ContentDelta::TextDelta { text: "caf\u{e9} \u{2713}".to_string() },
        })
    );
}

#[test]
fn payload_that_is_no_utf8_is_a_failure_of_the_transport() {
    assert_eq!(
        decode_payload(b"{\"type\":\"pi\xFFng\"}"),
        Err(MessageError::RequestFailed("UTF8 error: the payload is not valid UTF-8".to_string()))
    );
    let decoded = decode_events(b"data: {\"type\":\"ping\"}\n\ndata: \xC3\n\ndata: {\"type\":\"ping\"}\n\n");
    assert_eq!(decoded.events, vec![StreamEvent::Ping]);
    assert_eq!(
        decoded.failure,
        Some(MessageError::RequestFailed("UTF8 error: the payload is not valid UTF-8".to_string()))
    );
}

#[test]
fn parse_failure_holds_the_payload_as_it_came() {
    let raw = "{\"type\": \"caf\u{e9}\", \u{2713}}";
    let (payload_text, _) = parse_failure(decode_payload(raw.as_bytes()).unwrap_err());
    assert_eq!(payload_text, raw);
}

#[test]
fn transport_failure_ends_the_sequence() {
    let mut decoder = EventDecoder::new();
    assert_eq!(decoder.feed(b"data: {\"type\":\"ping\"}\n\ndata: {\"ty").events, vec![StreamEvent::Ping]);
    assert!(!decoder.has_ended());
    assert_eq!(
        decoder.transport_failed("connection reset"),
        MessageError::RequestFailed("connection reset".to_string())
    );
    assert!(decoder.has_ended());
    assert_eq!(decoder.feed(b"pe\":\"ping\"}\n\n"), Decoded { events: vec![], failure: None });
}

#[test]
fn event_from_parsed_follows_the_reader() {
    assert_eq!(
        event_from_parsed("x".to_string(), Err("no good".to_string())),
        Err(MessageError::ParseFailed { payload: "x".to_string(), reason: "no good".to_string() })
    );
    let ping = JsonValue::Object(vec![("type".to_string(), JsonValue::Text("ping".to_string()))]);
    assert_eq!(event_from_parsed("x".to_string(), Ok(ping)), Ok(StreamEvent::Ping));
    assert_eq!(
        event_from_parsed("x".to_string(), Ok(JsonValue::Null)),
        Err(MessageError::ParseFailed {
            payload: "x".to_string(),
            reason: "payload does not describe a known event".to_string(),
        })
    );
}

#[test]
fn decode_frames_stops_at_the_first_failure() {
    let frames = vec![
        SseFrame { event: b"message".to_vec(), data: b"{\"type\":\"ping\"}".to_vec() },
        SseFrame { event: b"message".to_vec(), data: b"nope".to_vec() },
        SseFrame { event: b"message".to_vec(), data: b"{\"type\":\"ping\"}".to_vec() },
    ];
    let decoded = decode_frames(&frames);
    assert_eq!(decoded.events, vec![StreamEvent::Ping]);
    assert_eq!(parse_failure(decoded.failure.unwrap()).0, "nope");
    assert_eq!(decode_frames(&Vec::new()), Decoded { events: vec![], failure: None });
}

#[test]
fn chunked_answer_gives_the_events_of_the_whole() {
    let text = answer();
    let body = text.as_bytes();
    for size in [1usize, 2, 3, 7, 64, 1000] {
        let mut decoder = EventDecoder::new();
        let mut events = Vec::new();
        for chunk in body.chunks(size) {
            let step = decoder.feed(chunk);
            assert_eq!(step.failure, None);
            events.extend(step.events);
        }
        assert_eq!(events, answer_events(), "chunks of {}", size);
        assert!(!decoder.has_ended());
    }
}

#[test]
fn decoder_takes_nothing_in_after_a_failure() {
    let mut decoder = EventDecoder::new();
    let first = decoder.feed(b"data: {\"type\":\"ping\"}\n\ndata: oops\n\ndata: {\"type\":\"ping\"}\n\n");
    assert_eq!(first.events, vec![StreamEvent::Ping]);
    assert!(first.failure.is_some());
    assert!(decoder.has_ended());
    let second = decoder.feed(b"data: {\"type\":\"ping\"}\n\n");
    assert_eq!(second, Decoded { events: vec![], failure: None });
}

#[test]
fn failure_split_over_chunks_is_reported_once_it_is_whole() {
    let mut decoder = EventDecoder::new();
    assert_eq!(decoder.feed(b"data: {\"type\":\"ping\"}\n\ndata: oo"), Decoded { events: vec![StreamEvent::Ping], failure: None });
    assert_eq!(decoder.feed(b"ps\n"), Decoded { events: vec![], failure: None });
    let last = decoder.feed(b"\n");
    assert_eq!(last.events, Vec::<StreamEvent>::new());
    assert_eq!(parse_failure(last.failure.unwrap()).0, "oops");
}
