use herdr_fleet::json::{decode_json, encode_json, Json};
use herdr_fleet::protocol::frame::{
    decode_frame_header, encode_frame, FrameError, FrameReader, FRAME_HEADER_BYTES,
    MAX_FRAME_PAYLOAD,
};
use herdr_fleet::protocol::framed::{pane_send_bytes_request, Frame, FrameType, HelloRemedy};
use herdr_fleet::protocol::hello::{
    negotiate_session_hello, HelloError, SessionHelloParams, FRAMED_PROTOCOL_VERSION,
};
use herdr_fleet::protocol::history::{
    decode_history_cursor, encode_history_cursor, history_page_end_cut_mid_line,
    history_page_start, page_of, HistoryCursor,
};
use herdr_fleet::text::{decimal_text, rank_texts, trim, Rank};

fn round_trip(text: &str) -> String {
    let value = decode_json(text.as_bytes()).expect("json");
    String::from_utf8(encode_json(&value)).expect("utf-8")
}

#[test]
fn json_is_read_and_written_compactly() {
    assert_eq!(round_trip(" { \"a\" : [ 1 , -2 , true , null , \"x\\ny\" ] } "), r#"{"a":[1,-2,true,null,"x\ny"]}"#);
    assert_eq!(round_trip("1.5"), "1.5");
    assert_eq!(round_trip("18446744073709551615"), "18446744073709551615");
    assert_eq!(round_trip("-9223372036854775808"), "-9223372036854775808");
    assert_eq!(round_trip(r#""quote \" and é""#), "\"quote \\\" and é\"");
    assert_eq!(round_trip(r#"{"b":1,"a":{"d":2,"c":3}}"#), r#"{"a":{"c":3,"d":2},"b":1}"#);
    assert_eq!(round_trip("[]"), "[]");
    assert_eq!(round_trip("{}"), "{}");
    assert!(decode_json(b"not json").is_none());
    assert!(decode_json(b"").is_none());
    assert!(decode_json(b"{\"a\":}").is_none());
}

#[test]
fn values_are_written_in_order_and_read_back() {
    let value = Json::Object(vec![
        ("z".to_owned(), Json::Signed(-3)),
        ("a".to_owned(), Json::Text("\u{1}\"é".to_owned())),
        ("z".to_owned(), Json::Unsigned(4)),
        ("m".to_owned(), Json::Array(vec![Json::Null, Json::Bool(true), Json::Signed(5)])),
        ("f".to_owned(), Json::Float("0.25".to_owned())),
        ("g".to_owned(), Json::Float("no number".to_owned())),
    ]);
    let bytes = encode_json(&value);
    assert_eq!(
        String::from_utf8(bytes.clone()).expect("utf-8"),
        "{\"a\":\"\\u0001\\\"é\",\"f\":0.25,\"g\":null,\"m\":[null,true,5],\"z\":4}"
    );
    let again = decode_json(&bytes).expect("json");
    assert_eq!(again.text_of("a"), Some("\u{1}\"é"));
    assert_eq!(again.unsigned_of("z"), Some(4));
    assert_eq!(encode_json(&again), bytes);
}

#[test]
fn json_members_are_looked_up_by_name() {
    let v = decode_json(br#"{"a":{"b":"c"},"n":7,"t":true}"#).expect("json");
    assert_eq!(v.get("a").and_then(|a| a.text_of("b")), Some("c"));
    assert_eq!(v.unsigned_of("n"), Some(7));
    assert_eq!(v.get("t").and_then(|t| t.as_bool()), Some(true));
    assert!(v.get("missing").is_none());
    assert!(Json::Null.get("a").is_none());
    assert_eq!(v.text_of("n"), None);
}

#[test]
fn frames_survive_any_chunking() {
    let first = encode_frame(FrameType::Control, 0, b"{}").expect("frame");
    let second = encode_frame(FrameType::Data, 70_000, b"bytes").expect("frame");
    assert_eq!(first.len(), FRAME_HEADER_BYTES + 2);
    let mut wire = first;
    wire.extend_from_slice(&second);
    for size in 1..wire.len() {
        let mut reader = FrameReader::new();
        let mut frames: Vec<Frame> = Vec::new();
        for chunk in wire.chunks(size) {
            reader.feed(chunk);
            while let Some(frame) = reader.take_buffered_frame().expect("well formed") {
                frames.push(frame);
            }
        }
        assert_eq!(frames.len(), 2);
        assert_eq!(frames[0].frame_type, FrameType::Control);
        assert_eq!(frames[0].payload, b"{}");
        assert_eq!(frames[1].stream_id, 70_000);
        assert_eq!(frames[1].payload, b"bytes");
        assert!(reader.buf.is_empty());
    }
}

#[test]
fn malformed_frames_are_refused() {
    let mut wire = encode_frame(FrameType::Data, 1, b"x").expect("frame");
    wire[0] = 9;
    let mut reader = FrameReader::new();
    reader.feed(&wire);
    assert_eq!(reader.take_buffered_frame(), Err(FrameError::UnknownType(9)));
    let header = [2, 1, 0, 0, 0, 255, 255, 255, 255];
    assert_eq!(decode_frame_header(&header), Err(FrameError::Oversized(u32::MAX)));
    assert!(encode_frame(FrameType::Data, 1, &vec![0; MAX_FRAME_PAYLOAD + 1]).is_none());
    assert!(encode_frame(FrameType::Data, 1, &vec![0; MAX_FRAME_PAYLOAD]).is_some());
}

fn hello(protocol: u32, min_protocol: Option<u32>, capabilities: &[&str]) -> SessionHelloParams {
    SessionHelloParams {
        protocol,
        min_protocol,
        capabilities: capabilities.iter().map(|c| c.to_string()).collect(),
    }
}

#[test]
fn hellos_negotiate_the_shared_window() {
    let session = negotiate_session_hello(&hello(5, Some(1), &["catalog", "teleport", "pane-stream"]))
        .expect("windows overlap");
    assert_eq!(session.protocol, FRAMED_PROTOCOL_VERSION);
    assert_eq!(session.capabilities, vec!["catalog", "pane-stream"]);

    match negotiate_session_hello(&hello(9, None, &[])) {
        Err(HelloError::OutOfWindow { remedy, message }) => {
            assert_eq!(remedy, HelloRemedy::UpgradeServer);
            assert_eq!(
                message,
                "the client requires framed protocol 9 or newer, but this server speaks up to 1; upgrade this herdr server"
            );
        }
        other => panic!("expected a refusal, got {other:?}"),
    }
    match negotiate_session_hello(&hello(0, None, &[])) {
        Err(HelloError::OutOfWindow { remedy, message }) => {
            assert_eq!(remedy, HelloRemedy::UpgradeClient);
            assert!(message.contains("upgrade the herdr client"));
        }
        other => panic!("expected a refusal, got {other:?}"),
    }
    match negotiate_session_hello(&hello(1, Some(2), &[])) {
        Err(HelloError::InvalidWindow { message }) => assert_eq!(
            message,
            "session.hello window is empty: min_protocol 2 exceeds protocol 1"
        ),
        other => panic!("expected a refusal, got {other:?}"),
    }
}

#[test]
fn cursors_read_back_and_nothing_else_does() {
    let cursor = HistoryCursor {
        pane_id: "p_1.2".to_owned(),
        sequence: u64::MAX,
        stream_id: 7,
        offset: 0,
    };
    let text = encode_history_cursor(&cursor);
    assert_eq!(text, "7.18446744073709551615.0.p_1.2");
    assert_eq!(decode_history_cursor(&text), Some(cursor));
    for bad in [
        "not-a-cursor",
        "",
        "1.2.3",
        "01.2.3.p",
        "4294967296.0.0.p",
        "1.18446744073709551616.0.p",
        ".2.3.p",
        "-1.2.3.p",
    ] {
        assert_eq!(decode_history_cursor(bad), None, "{bad}");
    }
    assert!(decode_history_cursor("1.2.3.").is_some());
}

#[test]
fn pages_start_at_lines_where_they_can() {
    let content = "one\ntwo\nthree";
    assert_eq!(history_page_start(content, 13, 13), 0);
    assert_eq!(history_page_start(content, 13, 9), 4);
    assert_eq!(history_page_start(content, 13, 8), 8);
    assert_eq!(history_page_start(content, 13, 4), 9);
    assert!(!history_page_end_cut_mid_line(content, 8));
    assert!(history_page_end_cut_mid_line(content, 9));
    assert!(!history_page_end_cut_mid_line(content, 13));
    assert!(!history_page_end_cut_mid_line(content, 0));
    assert_eq!(page_of(content, 4, 8), "two\n");
    // A cut never lands inside a character.
    let wide = "ééééé";
    assert_eq!(history_page_start(wide, 10, 3), 6);
    assert_eq!(page_of(wide, 6, 10), "éé");
}

#[test]
fn bytes_travel_as_base64() {
    let request = pane_send_bytes_request("i", "p", b"hello\x00\xff");
    assert_eq!(
        request.get("params").and_then(|p| p.text_of("data_base64")),
        Some("aGVsbG8A/w==")
    );
}

#[test]
fn texts_are_ranked_by_their_bytes() {
    assert_eq!(rank_texts("a", "b"), Rank::Before);
    assert_eq!(rank_texts("b", "a"), Rank::After);
    assert_eq!(rank_texts("ab", "a"), Rank::After);
    assert_eq!(rank_texts("é", "z"), Rank::After);
    assert_eq!(rank_texts("", ""), Rank::Same);
    assert_eq!(decimal_text(0), "0");
    assert_eq!(decimal_text(u64::MAX), "18446744073709551615");
    assert_eq!(trim(" \t\u{2003}x y\n"), "x y");
}
