use herdr_fleet::api::server::requests::{parse_resize_params, parse_scroll_params};
use herdr_fleet::client::framed_attach::{
    accept_welcome, attach_hello_request, attach_request_id, control_frame_exit, open_error_line,
    open_outcome, seed_screen, AttachEvent, AttachExit, AttachInputAction, AttachStep,
    FramedAttach, OpenOutcome,
};
use herdr_fleet::client::terminal_session::{
    closed_our_stream, connection_closed_record, framed_session_control_request, snapshot_record,
    CommandStep, RecordStep, SessionCommands, SessionRecords,
};
use herdr_fleet::json::{decode_json, encode_json, Json};
use herdr_fleet::protocol::framed::{
    pane_send_bytes_request, stream_close_request, Frame, FrameType, StreamOpened, StreamScrollDirection,
    StreamScrollSource, PANE_SEND_BYTES_METHOD, STREAM_CLOSE_METHOD, STREAM_RESIZE_METHOD,
    STREAM_SCROLL_METHOD,
};

fn json(text: &str) -> Json {
    decode_json(text.as_bytes()).expect("json")
}

fn wire(v: &Json) -> String {
    String::from_utf8(encode_json(v)).expect("utf-8")
}

#[test]
fn session_control_input_becomes_a_pane_send_bytes_request() {
    let request = framed_session_control_request(
        "s1",
        "p_1_1",
        7,
        r#"{"text":"ls","type":"terminal.input"}"#,
    )
    .unwrap()
    .expect("input request");
    assert_eq!(request.text_of("method"), Some(PANE_SEND_BYTES_METHOD));
    let params = request.get("params").expect("params");
    assert_eq!(params.text_of("pane_id"), Some("p_1_1"));
    assert_eq!(params.text_of("data_base64"), Some("bHM="));
}

#[test]
fn session_control_resize_and_scroll_address_the_stream() {
    let resize = framed_session_control_request(
        "s2",
        "p_1_1",
        7,
        r#"{"cols":100,"rows":30,"type":"terminal.resize"}"#,
    )
    .unwrap()
    .expect("resize request");
    assert_eq!(resize.text_of("method"), Some(STREAM_RESIZE_METHOD));
    let params = parse_resize_params(resize.get("params").expect("params")).unwrap();
    assert_eq!(params.stream_id, 7);
    assert_eq!((params.cols, params.rows), (100, 30));

    let scroll = framed_session_control_request(
        "s3",
        "p_1_1",
        7,
        r#"{"direction":"up","lines":4,"source":"page_key","type":"terminal.scroll"}"#,
    )
    .unwrap()
    .expect("scroll request");
    assert_eq!(scroll.text_of("method"), Some(STREAM_SCROLL_METHOD));
    let params = parse_scroll_params(scroll.get("params").expect("params")).unwrap();
    assert_eq!(params.stream_id, 7);
    assert_eq!(params.direction, StreamScrollDirection::Up);
    assert_eq!(params.source, StreamScrollSource::PageKey);
    assert_eq!(params.lines, 4);
}

#[test]
fn session_control_release_closes_the_stream() {
    let release =
        framed_session_control_request("s4", "p_1_1", 7, r#"{"type":"terminal.release"}"#).unwrap();
    assert!(release.is_none(), "release maps to a stream close");
    let close = stream_close_request("s4", 7);
    assert_eq!(close.text_of("method"), Some(STREAM_CLOSE_METHOD));
}

#[test]
fn session_control_rejects_invalid_commands() {
    assert!(framed_session_control_request("s5", "p_1_1", 7, "not json").is_err());
    assert!(framed_session_control_request(
        "s6",
        "p_1_1",
        7,
        r#"{"cols":0,"rows":30,"type":"terminal.resize"}"#
    )
    .is_err());
}

#[test]
fn refused_commands_say_why() {
    let refusal = |raw: &str| framed_session_control_request("s", "p", 7, raw).unwrap_err();
    assert_eq!(refusal("not json"), "terminal session command is not JSON");
    assert_eq!(refusal("{}"), "missing field `type`");
    assert_eq!(
        refusal(r#"{"type":"terminal.dance"}"#),
        "unknown terminal session command terminal.dance"
    );
    assert_eq!(refusal(r#"{"type":"terminal.input"}"#), "missing field `text`");
    assert_eq!(
        refusal(r#"{"cols":70000,"rows":1,"type":"terminal.resize"}"#),
        "invalid value for field `cols`"
    );
    assert_eq!(
        refusal(r#"{"cols":1,"rows":0,"type":"terminal.resize"}"#),
        "cols and rows must be greater than zero"
    );
    assert_eq!(
        refusal(r#"{"direction":"left","lines":1,"type":"terminal.scroll"}"#),
        "invalid value for field `direction`"
    );
}

#[test]
fn commands_are_counted_and_blank_lines_are_not() {
    let mut commands = SessionCommands::new();
    match commands.take_line("p", 7, "  \t ") {
        CommandStep::Skip => {}
        other => panic!("expected a skip, got {other:?}"),
    }
    assert_eq!(commands.request_id, 0);
    match commands.take_line("p", 7, r#"{"text":"x","type":"terminal.input"}"#) {
        CommandStep::Send(request) => assert_eq!(request.text_of("id"), Some("session:1")),
        other => panic!("expected a request, got {other:?}"),
    }
    match commands.take_line("p", 7, "nope") {
        CommandStep::Ignored(_) => {}
        other => panic!("expected it to be ignored, got {other:?}"),
    }
    match commands.take_line("p", 7, r#"{"type":"terminal.release"}"#) {
        CommandStep::Release(request) => {
            assert_eq!(wire(&request), wire(&stream_close_request("session:3", 7)))
        }
        other => panic!("expected a release, got {other:?}"),
    }
    assert_eq!(
        commands.end_of_input(7).text_of("id"),
        Some("session:4")
    );
}

fn opened() -> StreamOpened {
    StreamOpened {
        pane_id: "p_1_1".to_owned(),
        stream_id: 7,
        sequence: 10,
        snapshot: "hi".to_owned(),
        history_cursor: String::new(),
        cols: 80,
        rows: 24,
    }
}

fn frame(frame_type: FrameType, stream_id: u32, payload: &[u8]) -> Frame {
    Frame { frame_type, stream_id, payload: payload.to_vec() }
}

#[test]
fn records_count_on_from_the_snapshot() {
    assert_eq!(
        wire(&snapshot_record(&opened())),
        r#"{"bytes":"aGk=","encoding":"ansi","full":true,"pane_id":"p_1_1","seq":10,"type":"terminal.frame"}"#
    );
    let mut records = SessionRecords { stream_id: 7, sequence: 10 };
    match records.take_frame(&frame(FrameType::Data, 7, b"abc")) {
        RecordStep::Write(record) => assert_eq!(
            wire(&record),
            r#"{"bytes":"YWJj","encoding":"ansi","full":false,"seq":13,"type":"terminal.frame"}"#
        ),
        other => panic!("expected a record, got {other:?}"),
    }
    match records.take_frame(&frame(FrameType::Data, 8, b"abc")) {
        RecordStep::Nothing => {}
        other => panic!("expected nothing, got {other:?}"),
    }
    assert_eq!(records.sequence, 13);
    for (payload, reason) in [
        (&br#"{"event":"stream.closed"}"#[..], "pane closed"),
        (&br#"{"event":"stream.revoked"}"#[..], "taken over"),
        (
            &br#"{"id":"x","result":{"stream_id":7,"type":"stream_closed"}}"#[..],
            "released",
        ),
    ] {
        match records.take_frame(&frame(FrameType::Control, 0, payload)) {
            RecordStep::Finish(record) => assert_eq!(record.text_of("reason"), Some(reason)),
            other => panic!("expected the end, got {other:?}"),
        }
    }
    for payload in [
        &b"garbage"[..],
        &br#"{"error":{"code":"oops","message":"m"},"id":"x"}"#[..],
        &br#"{"id":"x","result":{"stream_id":8,"type":"stream_closed"}}"#[..],
    ] {
        match records.take_frame(&frame(FrameType::Control, 0, payload)) {
            RecordStep::Nothing => {}
            other => panic!("expected nothing, got {other:?}"),
        }
    }
    assert!(!closed_our_stream(&json("{}"), 7));
    assert_eq!(
        connection_closed_record().text_of("reason"),
        Some("server connection closed")
    );
}

#[test]
fn welcomes_have_to_grant_pane_streams() {
    let welcome = r#"{"id":"h","result":{"capabilities":["pane-stream"],"min_protocol":1,"protocol":1,"server_version":"1.2","type":"session.welcome"}}"#;
    assert_eq!(accept_welcome(&json(welcome)).expect("welcome").server_version, "1.2");
    let bare = r#"{"id":"h","result":{"capabilities":[],"min_protocol":1,"protocol":1,"server_version":"1.2","type":"session.welcome"}}"#;
    assert_eq!(
        accept_welcome(&json(bare)).unwrap_err(),
        "server 1.2 does not advertise pane streams"
    );
    let refusal = r#"{"error":{"code":"x","message":"go away"},"id":"h"}"#;
    assert_eq!(
        accept_welcome(&json(refusal)).unwrap_err(),
        "framed session rejected: go away"
    );
    assert_eq!(
        accept_welcome(&json("{}")).unwrap_err(),
        "framed session rejected: session.hello answer was not a session welcome"
    );
}

#[test]
fn open_answers_are_told_apart() {
    let good = r#"{"id":"o","result":{"stream":{"pane_id":"p","sequence":4,"snapshot":"s","stream_id":3},"type":"pane_stream_opened"}}"#;
    match open_outcome(&json(good)) {
        OpenOutcome::Opened(o) => assert_eq!((o.stream_id, o.sequence), (3, 4)),
        other => panic!("expected a stream, got {other:?}"),
    }
    let locked = r#"{"error":{"code":"pane_write_locked","message":"held by 4"},"id":"o"}"#;
    match open_outcome(&json(locked)) {
        OpenOutcome::Refused(e) => {
            assert_eq!(e.code, "pane_write_locked");
            assert_eq!(
                open_error_line("terminal attach", &e),
                "herdr: terminal attach failed: held by 4"
            );
        }
        other => panic!("expected a refusal, got {other:?}"),
    }
    match open_outcome(&json("{}")) {
        OpenOutcome::Invalid(e) => assert_eq!(e, "stream.open answer was not a pane stream"),
        other => panic!("expected neither, got {other:?}"),
    }
}

fn attach() -> FramedAttach {
    FramedAttach {
        pane_id: "p_1_1".to_owned(),
        stream_id: 7,
        viewport_rows: 24,
        next_request_id: 3,
    }
}

#[test]
fn an_attach_turns_events_into_requests() {
    let mut a = attach();
    match a.step(AttachEvent::Input(AttachInputAction::Forward(b"ls".to_vec()))) {
        AttachStep::Send(q) => {
            assert_eq!(q.text_of("id"), Some("attach:input:3"));
            assert_eq!(q.get("params").unwrap().text_of("data_base64"), Some("bHM="));
        }
        other => panic!("expected a request, got {other:?}"),
    }
    match a.step(AttachEvent::Resize(100, 30)) {
        AttachStep::Send(q) => {
            assert_eq!(q.text_of("id"), Some("attach:resize:4"));
            assert_eq!(q.get("params").unwrap().unsigned_of("cols"), Some(100));
        }
        other => panic!("expected a request, got {other:?}"),
    }
    assert_eq!(a.viewport_rows, 30);
    match a.step(AttachEvent::Input(AttachInputAction::Scroll {
        source: StreamScrollSource::Wheel,
        direction: StreamScrollDirection::Down,
        lines: 3,
        column: Some(2),
        row: None,
        modifiers: 0,
    })) {
        AttachStep::Send(q) => {
            assert_eq!(q.text_of("id"), Some("attach:scroll:5"));
            assert_eq!(q.get("params").unwrap().unsigned_of("column"), Some(2));
        }
        other => panic!("expected a request, got {other:?}"),
    }
    match a.step(AttachEvent::Input(AttachInputAction::Detach)) {
        AttachStep::Leave(q) => assert_eq!(q.text_of("id"), Some("attach:close:6")),
        other => panic!("expected to leave, got {other:?}"),
    }
    match a.step(AttachEvent::Input(AttachInputAction::Nothing)) {
        AttachStep::Nothing => {}
        other => panic!("expected nothing, got {other:?}"),
    }
    assert_eq!(a.next_request_id, 7);
}

#[test]
fn an_attach_prints_only_its_own_stream() {
    let mut a = attach();
    match a.step(AttachEvent::Frame(frame(FrameType::Data, 7, b"out"))) {
        AttachStep::Print(bytes) => assert_eq!(bytes, b"out"),
        other => panic!("expected output, got {other:?}"),
    }
    match a.step(AttachEvent::Frame(frame(FrameType::Data, 8, b"out"))) {
        AttachStep::Nothing => {}
        other => panic!("expected nothing, got {other:?}"),
    }
    match a.step(AttachEvent::Disconnected) {
        AttachStep::Exit(AttachExit::Disconnected) => {}
        other => panic!("expected the end, got {other:?}"),
    }
    assert_eq!(seed_screen("SNAP"), b"\x1b[2J\x1b[HSNAP");
}

#[test]
fn an_attach_ends_for_the_right_reason() {
    for (payload, exit) in [
        (
            &br#"{"data":{"stream_id":7},"event":"stream.closed"}"#[..],
            Some(AttachExit::PaneClosed),
        ),
        (
            &br#"{"data":{"stream_id":7},"event":"stream.revoked"}"#[..],
            Some(AttachExit::TakenOver),
        ),
        (&br#"{"data":{"stream_id":8},"event":"stream.closed"}"#[..], None),
        (
            &br#"{"error":{"code":"stream_overloaded","message":"m"},"id":""}"#[..],
            Some(AttachExit::Disconnected),
        ),
        (&br#"{"error":{"code":"other","message":"m"},"id":""}"#[..], None),
        (&b"garbage"[..], None),
    ] {
        assert_eq!(control_frame_exit(payload, 7), exit);
    }
    assert_eq!(AttachExit::Detached.report(), (None, false));
    assert_eq!(
        AttachExit::PaneClosed.report(),
        (Some("herdr: pane closed"), false)
    );
    assert_eq!(
        AttachExit::TakenOver.report(),
        (Some("herdr: terminal attach taken over"), true)
    );
    assert!(AttachExit::Disconnected.report().1);
}

#[test]
fn an_attach_asks_for_pane_streams_alone() {
    let hello = attach_hello_request(&attach_request_id("hello", 1), 1, 1);
    assert_eq!(
        encode_json(&hello),
        br#"{"id":"attach:hello:1","method":"session.hello","params":{"capabilities":["pane-stream"],"min_protocol":1,"protocol":1}}"#
    );
    assert_eq!(attach_request_id("open", 2), "attach:open:2");
}

#[test]
fn pane_bytes_travel_in_standard_base64() {
    for (bytes, text) in [
        (&[][..], ""),
        (&[0xff][..], "/w=="),
        (&[0x4d, 0x61][..], "TWE="),
        (&[0xfb, 0xff, 0xfe][..], "+//+"),
        (&[0, 0x10, 0x83, 0x10][..], "ABCDEA=="),
    ] {
        let request = pane_send_bytes_request("b", "p", bytes);
        let params = request.get("params").expect("params");
        assert_eq!(params.text_of("data_base64"), Some(text));
    }
}
