use skailar::error::SkailarError;
use skailar::json::JsonValue;
use skailar::streaming::{data_payload, decode_event, Event, LineBuffer, PollStep, StreamCore};

fn split(input: &str) -> Vec<String> {
    let mut buf = LineBuffer::new();
    let mut out = Vec::new();
    buf.push(input, &mut out);
    if let Some(rem) = buf.take_remainder() {
        out.push(rem);
    }
    out
}

#[test]
fn splits_on_lf() {
    assert_eq!(split("a\nb\nc"), vec!["a", "b", "c"]);
}

#[test]
fn splits_on_crlf() {
    assert_eq!(split("a\r\nb\r\nc"), vec!["a", "b", "c"]);
}

#[test]
fn splits_on_cr() {
    assert_eq!(split("a\rb\rc"), vec!["a", "b", "c"]);
}

#[test]
fn crlf_split_across_chunks() {
    let mut buf = LineBuffer::new();
    let mut out = Vec::new();
    buf.push("a\r", &mut out);
    buf.push("\nb", &mut out);
    if let Some(rem) = buf.take_remainder() {
        out.push(rem);
    }
    assert_eq!(out, vec!["a", "b"]);
}

#[test]
fn data_payload_strips_prefix_and_space() {
    assert_eq!(data_payload("data: hello"), Some("hello"));
    assert_eq!(data_payload("data:hello"), Some("hello"));
}

#[test]
fn data_payload_ignores_comments_and_blanks() {
    assert_eq!(data_payload(": keep-alive"), None);
    assert_eq!(data_payload(""), None);
    assert_eq!(data_payload("event: message"), None);
}

#[test]
fn detects_done_sentinel() {
    let event = decode_event("[DONE]").unwrap();
    assert!(matches!(event, Some(Event::Done)));
}

fn member(doc: &JsonValue, key: &str) -> JsonValue {
    JsonValue::parse(doc.get(key).expect("member").as_str()).expect("json")
}

#[test]
fn decodes_chunk() {
    let payload = r#"{"id":"1","object":"chat.completion.chunk","created":1,"model":"m","choices":[{"index":0,"delta":{"content":"hi"}}]}"#;
    let event = decode_event(payload).unwrap();
    match event {
        Some(Event::Chunk(chunk)) => {
            let choices = member(&chunk, "choices");
            let first = match &choices {
                JsonValue::Array(items) => JsonValue::parse(items[0].as_str()).unwrap(),
                other => panic!("expected array, got {other:?}"),
            };
            let delta = member(&first, "delta");
            assert_eq!(delta.member_str("content").as_deref(), Some("hi"));
        }
        _ => panic!("expected chunk"),
    }
}

#[test]
fn malformed_json_is_surfaced() {
    match decode_event("{not json") {
        Err(SkailarError::MalformedStreamEvent(_)) => {}
        other => panic!("expected malformed stream event, got {other:?}"),
    }
}

#[test]
fn in_band_error_becomes_api_error() {
    let payload = r#"{"error":{"type":"upstream_error","message":"boom"}}"#;
    match decode_event(payload) {
        Err(SkailarError::Api(api)) => {
            assert_eq!(api.code.as_deref(), Some("upstream_error"));
            assert_eq!(api.message, "boom");
        }
        other => panic!("expected API error, got {other:?}"),
    }
}

#[test]
fn in_band_error_without_message_gets_default() {
    match decode_event(r#"{"error":"overloaded"}"#) {
        Err(SkailarError::Api(api)) => {
            assert_eq!(api.status, 500);
            assert_eq!(api.code.as_deref(), Some("overloaded"));
            assert_eq!(api.message, "streaming error");
            assert!(api.raw.is_some());
        }
        other => panic!("expected API error, got {other:?}"),
    }
}

#[test]
fn data_payload_trims_trailing_blanks_and_one_space() {
    assert_eq!(data_payload("data:  two \t"), Some(" two"));
    assert_eq!(data_payload("data:"), Some(""));
    assert_eq!(data_payload("   "), None);
    assert_eq!(data_payload("dat"), None);
}

#[test]
fn splitting_is_independent_of_chunking() {
    let text = "x\r\ny\rz\n\nw";
    let whole = split(text);
    for cut in 0..=text.len() {
        let mut buf = LineBuffer::new();
        let mut out = Vec::new();
        buf.push(&text[..cut], &mut out);
        buf.push(&text[cut..], &mut out);
        if let Some(rem) = buf.take_remainder() {
            out.push(rem);
        }
        assert_eq!(out, whole, "cut at {cut}");
    }
    assert_eq!(whole, vec!["x", "y", "z", "", "w"]);
}

#[test]
fn lone_cr_then_lf_in_separate_pushes_is_one_terminator() {
    let mut buf = LineBuffer::new();
    let mut out = Vec::new();
    buf.push("a\r", &mut out);
    assert_eq!(out, vec!["a"]);
    buf.push("\n", &mut out);
    assert_eq!(out, vec!["a"]);
    buf.push("\n", &mut out);
    assert_eq!(out, vec!["a", ""]);
}

fn drain(core: &mut StreamCore) -> Vec<Result<String, String>> {
    let mut items = Vec::new();
    loop {
        match core.poll_step() {
            PollStep::Emit(Some(Ok((payload, _)))) => items.push(Ok(payload)),
            PollStep::Emit(Some(Err(e))) => items.push(Err(format!("{e:?}"))),
            PollStep::Emit(None) | PollStep::NeedBytes => return items,
        }
    }
}

#[test]
fn stream_core_yields_chunks_and_stops_at_done() {
    let mut core = StreamCore::new(0);
    assert!(matches!(core.poll_step(), PollStep::NeedBytes));
    core.on_bytes(b"data: {\"a\":1}\n\n: ping\ndata: [DONE]\n\ndata: {\"b\":2}\n\n");
    let items = drain(&mut core);
    assert_eq!(items, vec![Ok("{\"a\":1}".to_string())]);
}

#[test]
fn stream_core_flushes_unterminated_line_at_end() {
    let mut core = StreamCore::new(0);
    core.on_bytes(b"data: {\"a\"");
    assert!(matches!(core.poll_step(), PollStep::NeedBytes));
    core.on_bytes(b":1}");
    core.on_end();
    assert!(matches!(core.poll_step(), PollStep::Emit(Some(Ok((ref p, _)))) if p == "{\"a\":1}"));
    assert!(matches!(core.poll_step(), PollStep::Emit(None)));
    assert!(matches!(core.poll_step(), PollStep::Emit(None)));
}

#[test]
fn stream_core_error_frame_ends_stream() {
    let mut core = StreamCore::new(0);
    core.on_bytes(b"data: {\"error\":{\"code\":\"x\"}}\n\ndata: {\"a\":1}\n\n");
    match core.poll_step() {
        PollStep::Emit(Some(Err(SkailarError::Api(api)))) => {
            assert_eq!(api.code.as_deref(), Some("x"));
            assert_eq!(api.message, "streaming error");
        }
        _ => panic!("expected an API error"),
    }
}

#[test]
fn stream_core_malformed_payload_is_reported() {
    let mut core = StreamCore::new(0);
    core.on_bytes(b"data: {not valid json}\n\n");
    match core.poll_step() {
        PollStep::Emit(Some(Err(SkailarError::MalformedStreamEvent(p)))) => {
            assert_eq!(p, "{not valid json}")
        }
        _ => panic!("expected a malformed event"),
    }
    assert!(matches!(core.poll_step(), PollStep::Emit(None)));
}

#[test]
fn stream_core_close_and_transport_error() {
    let mut core = StreamCore::new(0);
    core.close();
    assert!(matches!(core.poll_step(), PollStep::Emit(None)));
    let mut core = StreamCore::new(60);
    assert_eq!(core.on_transport_error(), 60);
    assert!(matches!(core.poll_step(), PollStep::Emit(None)));
}

#[test]
fn invalid_utf8_is_replaced_not_dropped() {
    let mut core = StreamCore::new(0);
    core.on_bytes(b"data: \"\xff\"\n");
    match core.poll_step() {
        PollStep::Emit(Some(Ok((p, JsonValue::Str(s))))) => {
            assert_eq!(p, "\"\u{FFFD}\"");
            assert_eq!(s, "\u{FFFD}");
        }
        _ => panic!("expected a chunk"),
    }
}

#[test]
fn completed_lines_hold_no_terminators() {
    for line in split("a\r\r\nb\n\rc\r") {
        assert!(!line.contains('\r') && !line.contains('\n'));
    }
}

#[test]
fn stream_core_queue_independent_of_byte_chunking() {
    let body: &[u8] = "data: {\"a\":\"é\"}\r\n\r\ndata: {\"b\":2}\n\ndata: [DONE]\n\n".as_bytes();
    let mut whole = StreamCore::new(0);
    whole.on_bytes(body);
    let expected = drain(&mut whole);
    assert_eq!(expected.len(), 2);
    for cut in 0..=body.len() {
        let (a, b) = body.split_at(cut);
        if std::str::from_utf8(a).is_err() || std::str::from_utf8(b).is_err() {
            continue;
        }
        let mut core = StreamCore::new(0);
        core.on_bytes(a);
        core.on_bytes(b);
        assert_eq!(drain(&mut core), expected, "cut at {cut}");
    }
}

#[test]
fn stops_at_done_sentinel() {
    let mut core = StreamCore::new(0);
    core.on_bytes(b"data: {\"a\":1}\n\ndata: [DONE]\n\ndata: {\"should\":\"be ignored\"}\n\n");
    assert!(matches!(core.poll_step(), PollStep::Emit(Some(Ok(_)))));
    assert!(matches!(core.poll_step(), PollStep::Emit(None)));
    for _ in 0..3 {
        assert!(matches!(core.poll_step(), PollStep::Emit(None)));
    }
    core.on_bytes(b"data: {\"late\":1}\n\n");
    core.on_end();
    assert!(matches!(core.poll_step(), PollStep::Emit(None)));
}

#[test]
fn nothing_after_an_error_item() {
    let mut core = StreamCore::new(0);
    core.on_bytes(b"data: {\"error\":\"boom\"}\n\ndata: {\"a\":1}\n\n");
    assert!(matches!(core.poll_step(), PollStep::Emit(Some(Err(SkailarError::Api(_))))));
    assert!(matches!(core.poll_step(), PollStep::Emit(None)));
    assert!(matches!(core.poll_step(), PollStep::Emit(None)));
}

#[test]
fn end_of_body_drains_queue_then_ends() {
    let mut core = StreamCore::new(0);
    core.on_bytes(b"data: {\"a\":1}\n\ndata: {\"b\":2}");
    core.on_end();
    assert_eq!(drain(&mut core).len(), 2);
    assert!(matches!(core.poll_step(), PollStep::Emit(None)));
}
