use game_watcher::codec::{decode_frame, encode_envelope, DecodeError};
use game_watcher::types::{GameId, LichessWebsocketEvent};

#[test]
fn encode_envelope_plain() {
    let frame = encode_envelope("startWatching", "abc123 ");
    assert_eq!(frame, "{\"t\":\"startWatching\",\"d\":\"abc123 \"}");
}

#[test]
fn encode_envelope_empty_payload() {
    let frame = encode_envelope("startWatching", "");
    assert_eq!(frame, "{\"t\":\"startWatching\",\"d\":\"\"}");
}

#[test]
fn encode_envelope_escapes() {
    let frame = encode_envelope("x", "a\"b\\c\nd\u{1}");
    assert_eq!(frame, "{\"t\":\"x\",\"d\":\"a\\\"b\\\\c\\nd\\u0001\"}");
}

#[test]
fn encode_envelope_matches_reference_encoder() {
    let cases = ["plain", "with space ", "q\"b", "back\\slash", "\ttab\nnl\rcr", "\u{8}\u{c}\u{1f}\u{7f}", "unicode: é☃"];
    for payload in cases {
        let tag_literal =
            serde_json::to_string(&serde_json::Value::String("startWatching".to_string())).unwrap();
        let payload_literal =
            serde_json::to_string(&serde_json::Value::String(payload.to_string())).unwrap();
        let expected = format!("{{\"t\":{tag_literal},\"d\":{payload_literal}}}");
        assert_eq!(encode_envelope("startWatching", payload), expected);
    }
}

#[test]
fn decode_heartbeat_yields_no_event() {
    assert_eq!(decode_frame("0"), Ok(None));
}

#[test]
fn decode_finish_with_result() {
    let frame = "{\"t\":\"finish\",\"d\":{\"id\":\"abcd1234\",\"win\":\"white\"}}";
    assert_eq!(
        decode_frame(frame),
        Ok(Some(LichessWebsocketEvent::Finish {
            id: GameId("abcd1234".to_string()),
            win: Some("white".to_string()),
        }))
    );
}

#[test]
fn decode_finish_without_result() {
    let frame = "{\"t\":\"finish\",\"d\":{\"id\":\"abcd1234\"}}";
    assert_eq!(
        decode_frame(frame),
        Ok(Some(LichessWebsocketEvent::Finish {
            id: GameId("abcd1234".to_string()),
            win: None,
        }))
    );
}

#[test]
fn decode_finish_null_result() {
    let frame = "{\"t\":\"finish\",\"d\":{\"id\":\"abcd1234\",\"win\":null}}";
    assert_eq!(
        decode_frame(frame),
        Ok(Some(LichessWebsocketEvent::Finish {
            id: GameId("abcd1234".to_string()),
            win: None,
        }))
    );
}

#[test]
fn decode_finish_missing_id_fails() {
    let frame = "{\"t\":\"finish\",\"d\":{\"win\":\"white\"}}";
    assert_eq!(decode_frame(frame), Err(DecodeError::BadPayload));
}

#[test]
fn decode_fen_event() {
    let frame = "{\"t\":\"fen\",\"d\":{\"id\":\"abcd1234\",\"lm\":\"e2e4\",\"fen\":\"rnbqkbnr/pppppppp/8/8/4P3/8/PPPP1PPP/RNBQKBNR b\",\"wc\":600,\"bc\":598}}";
    assert_eq!(
        decode_frame(frame),
        Ok(Some(LichessWebsocketEvent::Fen {
            id: GameId("abcd1234".to_string()),
            lm: "e2e4".to_string(),
            fen: "rnbqkbnr/pppppppp/8/8/4P3/8/PPPP1PPP/RNBQKBNR b".to_string(),
            wc: 600,
            bc: 598,
        }))
    );
}

#[test]
fn decode_fen_clock_too_large_fails() {
    let frame = "{\"t\":\"fen\",\"d\":{\"id\":\"a\",\"lm\":\"e2e4\",\"fen\":\"x\",\"wc\":4294967296,\"bc\":1}}";
    assert_eq!(decode_frame(frame), Err(DecodeError::BadPayload));
}

#[test]
fn decode_unknown_tag_fails() {
    let frame = "{\"t\":\"mlat\",\"d\":123}";
    assert_eq!(decode_frame(frame), Err(DecodeError::UnknownTag));
}

#[test]
fn decode_invalid_json_fails() {
    assert_eq!(decode_frame("not json at all"), Err(DecodeError::InvalidJson));
}

#[test]
fn decode_missing_tag_fails() {
    assert_eq!(decode_frame("{}"), Err(DecodeError::MissingTag));
    assert_eq!(decode_frame("{\"t\":7,\"d\":{}}"), Err(DecodeError::MissingTag));
}

#[test]
fn decode_missing_payload_fails() {
    assert_eq!(decode_frame("{\"t\":\"fen\"}"), Err(DecodeError::MissingPayload));
}

#[test]
fn decode_numeric_non_heartbeat_fails() {
    assert_eq!(decode_frame("1"), Err(DecodeError::MissingTag));
}

#[test]
fn split_ndjson_drops_empty_lines() {
    let lines = game_watcher::game_list::split_ndjson_lines("{\"a\":1}\n\n{\"b\":2}\n");
    assert_eq!(lines, vec!["{\"a\":1}".to_string(), "{\"b\":2}".to_string()]);
}

#[test]
fn split_ndjson_without_trailing_newline() {
    let lines = game_watcher::game_list::split_ndjson_lines("one\ntwo");
    assert_eq!(lines, vec!["one".to_string(), "two".to_string()]);
}

#[test]
fn split_ndjson_of_empty_text_is_empty() {
    assert!(game_watcher::game_list::split_ndjson_lines("").is_empty());
    assert!(game_watcher::game_list::split_ndjson_lines("\n\n").is_empty());
}
