use herdr_fleet::api::event_hub::{EventHub, MAX_EVENTS};
use herdr_fleet::api::schema::{EventData, EventEnvelope};
use herdr_fleet::api::server::completion::{
    anchor_snapshot, forward_api_request, Attachment, Forwarding, OpenAnswer,
};
use herdr_fleet::api::server::dispatch::AppMethod;
use herdr_fleet::api::server::framed_session::{
    ControlStep, FrameStep, FramedSession, PaneStreamHistory, StreamIds,
};
use herdr_fleet::api::server::handshake::negotiate_handshake;
use herdr_fleet::api::server::requests::Objections;
use herdr_fleet::api::server::pump::{
    event_payload, resync_payload, Broadcast, Drain, Output, SessionEnd,
};
use herdr_fleet::json::{decode_json, encode_json, Json};
use herdr_fleet::protocol::frame::MAX_FRAME_PAYLOAD;
use herdr_fleet::protocol::framed::{
    parse_session_snapshot, stream_history_request, Frame, FrameType, CONTROL_STREAM_ID,
    PANE_WRITE_LOCKED_ERROR,
};
use herdr_fleet::protocol::hello::{FRAMED_PROTOCOL_MIN_SUPPORTED, FRAMED_PROTOCOL_VERSION};
use herdr_fleet::protocol::history::{
    decode_history_cursor, encode_history_cursor, parse_stream_history, HistoryCursor,
    HISTORY_FETCH_MAX_BYTES, HISTORY_PAGE_MIN_BYTES,
};

const VERSION: &str = "9.9.9";

fn json(text: &str) -> Json {
    decode_json(text.as_bytes()).expect("json")
}

/// The value under a path of names.
fn at<'a>(v: &'a Json, path: &[&str]) -> Option<&'a Json> {
    let mut v = v;
    for name in path {
        v = v.get(name)?;
    }
    Some(v)
}

fn text<'a>(v: &'a Json, path: &[&str]) -> Option<&'a str> {
    at(v, path).and_then(|v| v.as_str())
}

fn number(v: &Json, path: &[&str]) -> Option<u64> {
    at(v, path).and_then(|v| v.as_u64())
}

fn hello_bytes(id: &str, capabilities: &[&str]) -> Vec<u8> {
    let list: Vec<String> = capabilities.iter().map(|c| format!("\"{c}\"")).collect();
    format!(
        "{{\"id\":\"{id}\",\"method\":\"session.hello\",\"params\":{{\"protocol\":{FRAMED_PROTOCOL_VERSION},\"min_protocol\":{FRAMED_PROTOCOL_MIN_SUPPORTED},\"capabilities\":[{}]}}}}",
        list.join(",")
    )
    .into_bytes()
}

/// A server side with its app: what the app would do is done by hand.
struct Server {
    session: FramedSession,
    ids: StreamIds,
    hub: EventHub,
}

impl Server {
    fn open(capabilities: &[&str]) -> Server {
        Server::open_on(EventHub::new(), capabilities)
    }

    fn open_on(hub: EventHub, capabilities: &[&str]) -> Server {
        let handshake = negotiate_handshake(
            FrameType::Control,
            &hello_bytes("h", capabilities),
            &Objections::none(),
            VERSION,
        );
        let session = handshake.session.expect("negotiated");
        Server {
            session: FramedSession::start(session, hub.current_sequence()),
            ids: StreamIds::new(),
            hub,
        }
    }

    fn step(&mut self, payload: &[u8]) -> ControlStep {
        self.session.handle_control_frame(
            payload,
            &Objections::none(),
            &mut self.ids,
            self.hub.current_sequence(),
            VERSION,
        )
    }

    /// A request that is answered without the app.
    fn ask(&mut self, request: &str) -> Json {
        match self.step(request.as_bytes()) {
            ControlStep::Respond(reply) => reply,
            ControlStep::Release { response, .. } => response,
            other => panic!("expected an answer, got {other:?}"),
        }
    }

    /// A request that the app carries out.
    fn relay(&mut self, request: &str) -> (String, AppMethod) {
        match self.step(request.as_bytes()) {
            ControlStep::Relay(q) => (q.id, q.method),
            other => panic!("expected the app to be asked, got {other:?}"),
        }
    }

    fn assert_alive(&mut self) {
        let pong = self.ask(r#"{"id":"p1","method":"ping","params":{}}"#);
        assert_eq!(text(&pong, &["result", "type"]), Some("pong"));
    }

    /// Opens a stream on a pane whose history is `history`.
    fn open_stream(&mut self, pane_id: &str, write: bool, history: &str) -> (u32, Json) {
        let mode = if write { "write" } else { "read" };
        let request = format!(
            "{{\"id\":\"s1\",\"method\":\"stream.open\",\"params\":{{\"pane_id\":\"{pane_id}\",\"mode\":\"{mode}\"}}}}"
        );
        let (stream_id, target) = match self.step(request.as_bytes()) {
            ControlStep::Open { request, stream_id, target } => {
                assert_eq!(request.id, "s1");
                match request.method {
                    AppMethod::PaneStreamOpen { write: asked, stream_id: named, .. } => {
                        assert_eq!(asked, write);
                        assert_eq!(named, stream_id);
                    }
                    other => panic!("unexpected request: {other:?}"),
                }
                (stream_id, target)
            }
            other => panic!("expected an open, got {other:?}"),
        };
        let cursor = encode_history_cursor(&HistoryCursor {
            pane_id: "pane_1".to_owned(),
            sequence: 14,
            stream_id,
            offset: history.len() as u64,
        });
        let response = format!(
            "{{\"id\":\"s1\",\"result\":{{\"type\":\"pane_stream_opened\",\"stream\":{{\"pane_id\":\"{pane_id}\",\"workspace_id\":\"ws_1\",\"stream_id\":{stream_id},\"sequence\":14,\"snapshot\":\"SNAPSHOT\",\"history_cursor\":\"{cursor}\",\"cols\":80,\"rows\":24}}}}}}"
        );
        let end = self.session.finish_stream_open(
            "s1",
            stream_id,
            target,
            response.as_bytes(),
            Some(Attachment {
                writable: write,
                history: PaneStreamHistory {
                    pane_id: "pane_1".to_owned(),
                    sequence: 14,
                    content: history.to_owned(),
                },
            }),
        );
        assert!(end.release.is_none());
        assert!(matches!(end.answer, OpenAnswer::Relay));
        (stream_id, json(&response))
    }

    fn pump(&mut self, drains: Vec<(u32, Drain)>) -> (Vec<Output>, Option<SessionEnd>) {
        let pumped = self.session.pump_streams(&drains);
        (pumped.outputs, pumped.end)
    }

    fn events(&mut self) -> Vec<(String, u64, String)> {
        self.session
            .pump_events(&self.hub)
            .into_iter()
            .map(|b| match b {
                Broadcast::Resync => ("resync".to_owned(), 0, String::new()),
                Broadcast::Event { event, sequence, envelope, .. } => {
                    (event.to_owned(), sequence, format!("{:?}", envelope.data))
                }
            })
            .collect()
    }
}

fn quiet() -> Drain {
    Drain { bytes: Vec::new(), overloaded: false, closed: false, revoked: false }
}

fn bytes(data: &[u8]) -> Drain {
    Drain { bytes: data.to_vec(), ..quiet() }
}

fn sent(output: &Output) -> (FrameType, u32, Vec<u8>) {
    match output {
        Output::Send(f) => (f.frame_type, f.stream_id, f.payload.clone()),
        other => panic!("expected a frame, got {other:?}"),
    }
}

fn sent_json(output: &Output) -> Json {
    let (frame_type, stream_id, payload) = sent(output);
    assert_eq!(frame_type, FrameType::Control);
    assert_eq!(stream_id, CONTROL_STREAM_ID);
    decode_json(&payload).expect("json")
}

fn notification(kind: &str, message: &str, body: Option<&str>) -> EventEnvelope {
    EventEnvelope {
        data: EventData::NotificationPosted {
            kind: kind.to_owned(),
            message: message.to_owned(),
            body: body.map(|b| b.to_owned()),
        },
    }
}

fn pane_closed(pane_id: &str) -> EventEnvelope {
    EventEnvelope {
        data: EventData::PaneClosed {
            pane_id: pane_id.to_owned(),
            workspace_id: "ws_1".to_owned(),
        },
    }
}

#[test]
fn framed_hello_negotiates_and_serves_heartbeat_ping() {
    let handshake =
        negotiate_handshake(
            FrameType::Control,
            &hello_bytes("h1", &["pane-stream"]),
            &Objections::none(),
            VERSION,
        );
    let welcome = handshake.reply;
    assert_eq!(text(&welcome, &["id"]), Some("h1"));
    assert_eq!(text(&welcome, &["result", "type"]), Some("session.welcome"));
    assert_eq!(
        number(&welcome, &["result", "protocol"]),
        Some(FRAMED_PROTOCOL_VERSION as u64)
    );
    assert_eq!(
        number(&welcome, &["result", "min_protocol"]),
        Some(FRAMED_PROTOCOL_MIN_SUPPORTED as u64)
    );
    assert_eq!(
        encode_json(at(&welcome, &["result", "capabilities"]).expect("capabilities")),
        b"[\"pane-stream\"]"
    );
    assert_eq!(text(&welcome, &["result", "server_version"]), Some(VERSION));

    let mut server = Server::open(&["pane-stream"]);
    let pong = server.ask(r#"{"id":"p1","method":"ping","params":{}}"#);
    assert_eq!(text(&pong, &["id"]), Some("p1"));
    assert_eq!(text(&pong, &["result", "type"]), Some("pong"));
    assert_eq!(
        number(&pong, &["result", "protocol"]),
        Some(FRAMED_PROTOCOL_VERSION as u64)
    );
    assert_eq!(text(&pong, &["result", "version"]), Some(VERSION));

    // A second ping keeps working: the session stays open between beats.
    let pong = server.ask(r#"{"id":"p2","method":"ping","params":{}}"#);
    assert_eq!(text(&pong, &["id"]), Some("p2"));
}

#[test]
fn framed_out_of_window_hello_is_rejected_with_exact_remedy() {
    let handshake = negotiate_handshake(
        FrameType::Control,
        br#"{"id":"h2","method":"session.hello","params":{"min_protocol":99,"protocol":99}}"#,
        &Objections::none(),
        VERSION,
    );
    let rejection = handshake.reply;
    assert_eq!(text(&rejection, &["id"]), Some("h2"));
    assert_eq!(
        text(&rejection, &["error", "code"]),
        Some("protocol_out_of_window")
    );
    assert!(text(&rejection, &["error", "message"])
        .unwrap()
        .contains("upgrade this herdr server"));
    assert_eq!(
        text(&rejection, &["error", "data", "remedy"]),
        Some("upgrade_server")
    );
    assert_eq!(
        number(&rejection, &["error", "data", "server_protocol"]),
        Some(FRAMED_PROTOCOL_VERSION as u64)
    );
    assert_eq!(
        number(&rejection, &["error", "data", "server_min_protocol"]),
        Some(FRAMED_PROTOCOL_MIN_SUPPORTED as u64)
    );
    assert_eq!(number(&rejection, &["error", "data", "client_protocol"]), Some(99));
    assert_eq!(number(&rejection, &["error", "data", "client_min_protocol"]), Some(99));

    // The server closes the connection after an out-of-window hello.
    assert!(handshake.session.is_none());
}

#[test]
fn framed_first_control_request_must_be_session_hello() {
    let handshake = negotiate_handshake(
        FrameType::Control,
        br#"{"id":"p0","method":"ping","params":{}}"#,
        &Objections::none(),
        VERSION,
    );
    assert_eq!(text(&handshake.reply, &["id"]), Some("p0"));
    assert_eq!(text(&handshake.reply, &["error", "code"]), Some("invalid_request"));
    assert!(text(&handshake.reply, &["error", "message"])
        .unwrap()
        .contains("session.hello"));
    assert!(handshake.session.is_none());
}

#[test]
fn unreadable_openings_are_refused() {
    for (frame_type, payload, message) in [
        (FrameType::Data, &b"x"[..], "expected a session.hello control frame"),
        (
            FrameType::Control,
            &b"not json"[..],
            "invalid control request: not a control request",
        ),
        (
            FrameType::Control,
            &br#"{"id":7,"method":"session.hello"}"#[..],
            "invalid control request: not a control request",
        ),
        (
            FrameType::Control,
            &br#"{"method":"session.hello","params":{}}"#[..],
            "invalid session.hello params: missing field `protocol`",
        ),
        (
            FrameType::Control,
            &br#"{"method":"session.hello","params":{"capabilities":[1],"protocol":1}}"#[..],
            "invalid session.hello params: invalid value for field `capabilities`",
        ),
    ] {
        let handshake = negotiate_handshake(frame_type, payload, &Objections::none(), VERSION);
        assert_eq!(text(&handshake.reply, &["error", "code"]), Some("invalid_request"));
        assert_eq!(text(&handshake.reply, &["error", "message"]), Some(message));
        assert_eq!(text(&handshake.reply, &["id"]), Some(""));
        assert!(handshake.session.is_none());
    }
}

#[test]
fn framed_data_frame_from_client_ends_session() {
    let mut server = Server::open(&[]);
    let frame = Frame { frame_type: FrameType::Data, stream_id: 7, payload: b"stray".to_vec() };
    match server.session.handle_frame(&frame, &Objections::none(), &mut server.ids, 0, VERSION) {
        FrameStep::Desynchronized(error) => {
            assert_eq!(text(&error, &["error", "code"]), Some("unknown_stream"));
            assert_eq!(
                text(&error, &["error", "message"]),
                Some("data frames are server-to-client; no client-writable stream with id 7")
            );
        }
        other => panic!("expected the session to end, got {other:?}"),
    }
}

#[test]
fn framed_unknown_control_method_keeps_session_alive() {
    let mut server = Server::open(&[]);
    let error = server.ask(r#"{"id":"m1","method":"no.such.method","params":{}}"#);
    assert_eq!(text(&error, &["id"]), Some("m1"));
    assert_eq!(text(&error, &["error", "code"]), Some("unknown_method"));
    server.assert_alive();
}

#[test]
fn a_second_hello_and_garbage_keep_the_session_alive() {
    let mut server = Server::open(&[]);
    let error = server.ask(r#"{"id":"h","method":"session.hello","params":{"protocol":1}}"#);
    assert_eq!(
        text(&error, &["error", "message"]),
        Some("session.hello was already negotiated on this connection")
    );
    let error = server.ask("garbage");
    assert_eq!(text(&error, &["error", "code"]), Some("invalid_request"));
    server.assert_alive();
}

#[test]
fn framed_stream_open_returns_snapshot_and_streams_data_tail() {
    let mut server = Server::open(&["pane-stream"]);
    let (stream_id, opened) = server.open_stream("pane_1", false, "");
    assert_eq!(text(&opened, &["id"]), Some("s1"));
    assert_eq!(text(&opened, &["result", "type"]), Some("pane_stream_opened"));
    assert_ne!(stream_id, CONTROL_STREAM_ID);
    assert_eq!(number(&opened, &["result", "stream", "sequence"]), Some(14));
    assert_eq!(text(&opened, &["result", "stream", "snapshot"]), Some("SNAPSHOT"));
    let cursor = decode_history_cursor(
        text(&opened, &["result", "stream", "history_cursor"]).unwrap(),
    )
    .expect("history cursor decodes");
    assert_eq!(cursor.pane_id, "pane_1");
    assert_eq!(cursor.sequence, 14);
    assert_eq!(cursor.stream_id, stream_id);

    // The live tail arrives as DATA frames on the allocated stream id, in
    // publish order.
    for data in [&b"first "[..], &b"second"[..]] {
        let (outputs, end) = server.pump(vec![(stream_id, bytes(data))]);
        assert_eq!(end, None);
        assert_eq!(outputs.len(), 1);
        assert_eq!(sent(&outputs[0]), (FrameType::Data, stream_id, data.to_vec()));
    }

    // A second open on the same connection allocates a fresh, never reused
    // stream id.
    let (second_id, _) = server.open_stream("pane_1", false, "");
    assert!(second_id > stream_id, "stream ids must never be reused");

    // stream.close detaches: the session stays alive.
    for id in [stream_id, second_id] {
        let closed = server.ask(&format!(
            "{{\"id\":\"c1\",\"method\":\"stream.close\",\"params\":{{\"stream_id\":{id}}}}}"
        ));
        assert_eq!(text(&closed, &["result", "type"]), Some("stream_closed"));
        assert_eq!(number(&closed, &["result", "stream_id"]), Some(id as u64));
    }
    assert_eq!(server.session.streams.len(), 0, "no data may flow after stream.close");
    server.assert_alive();
}

#[test]
fn framed_stream_open_requires_pane_stream_capability() {
    let mut server = Server::open(&[]);
    let rejection =
        server.ask(r#"{"id":"s1","method":"stream.open","params":{"pane_id":"pane_1"}}"#);
    assert_eq!(text(&rejection, &["id"]), Some("s1"));
    assert_eq!(
        text(&rejection, &["error", "code"]),
        Some("capability_not_negotiated")
    );
    assert_eq!(
        text(&rejection, &["error", "data", "capability"]),
        Some("pane-stream")
    );

    let rejection = server.ask(
        r#"{"id":"b1","method":"pane.send_bytes","params":{"data_base64":"aGk=","pane_id":"pane_1"}}"#,
    );
    assert_eq!(
        text(&rejection, &["error", "code"]),
        Some("capability_not_negotiated")
    );

    let paste = server.ask(
        r#"{"id":"i1","method":"pane.paste_image","params":{"data_base64":"aGk=","extension":"png","pane_id":"pane_1"}}"#,
    );
    assert_eq!(text(&paste, &["error", "code"]), Some("capability_not_negotiated"));
    assert_eq!(
        text(&paste, &["error", "data", "capability"]),
        Some("paste-image")
    );
    assert_eq!(
        text(&paste, &["error", "message"]),
        Some("pane.paste_image requires the paste-image capability, which was not negotiated at session.hello")
    );

    // The session survives capability rejections.
    server.assert_alive();
}

#[test]
fn framed_pane_send_bytes_dispatches_to_app() {
    let mut server = Server::open(&["pane-stream", "paste-image"]);
    let (id, method) = server.relay(
        r#"{"id":"b1","method":"pane.send_bytes","params":{"data_base64":"aGVsbG8=","pane_id":"pane_1"}}"#,
    );
    assert_eq!(id, "b1");
    match method {
        AppMethod::PaneSendBytes { pane_id, data_base64 } => {
            assert_eq!(pane_id, "pane_1");
            assert_eq!(data_base64, "aGVsbG8=");
        }
        other => panic!("unexpected request: {other:?}"),
    }

    let (id, method) = server.relay(
        r#"{"id":"i1","method":"pane.paste_image","params":{"data_base64":"aGVsbG8=","extension":"png","pane_id":"pane_1"}}"#,
    );
    assert_eq!(id, "i1");
    match method {
        AppMethod::PanePasteImage { pane_id, extension, .. } => {
            assert_eq!(pane_id, "pane_1");
            assert_eq!(extension, "png");
        }
        other => panic!("unexpected request: {other:?}"),
    }

    let error = server.ask(r#"{"id":"b2","method":"pane.send_bytes","params":{"pane_id":"p"}}"#);
    assert_eq!(text(&error, &["error", "code"]), Some("invalid_params"));
    assert_eq!(
        text(&error, &["error", "message"]),
        Some("invalid pane.send_bytes params: missing field `data_base64`")
    );
}

#[test]
fn framed_overloaded_stream_disconnects_client() {
    let mut server = Server::open(&["pane-stream"]);
    let (first, _) = server.open_stream("pane_1", false, "");
    let (stream_id, _) = server.open_stream("pane_1", false, "");
    let (outputs, end) = server.pump(vec![
        (first, bytes(b"tail")),
        (stream_id, Drain { overloaded: true, ..quiet() }),
    ]);
    assert_eq!(sent(&outputs[0]), (FrameType::Data, first, b"tail".to_vec()));
    let error = sent_json(&outputs[1]);
    assert_eq!(text(&error, &["error", "code"]), Some("stream_overloaded"));
    assert_eq!(
        number(&error, &["error", "data", "stream_id"]),
        Some(stream_id as u64)
    );
    // The server then disconnects; the client reseeds by reconnecting.
    assert_eq!(end, Some(SessionEnd::Overloaded));
    assert_eq!(outputs.len(), 2);
}

#[test]
fn framed_notification_and_window_title_events_broadcast_when_negotiated() {
    let mut hub = EventHub::default();
    // Pre-handshake history must not replay into the session.
    hub.push(notification("toast", "stale", None));
    let mut server = Server::open_on(hub, &["notification", "window-title"]);

    server.hub.push(notification("toast", "pi finished", Some("workspace 1")));
    let events = server.events();
    assert_eq!(events.len(), 1);
    assert_eq!(events[0].0, "notification.posted");
    assert_eq!(events[0].1, 2);
    assert!(events[0].2.contains("pi finished"));
    assert!(events[0].2.contains("workspace 1"));

    server.hub.push(EventEnvelope {
        data: EventData::WindowTitleChanged { title: Some("herdr — work".to_owned()) },
    });
    let events = server.events();
    assert_eq!(events[0].0, "window_title.changed");
    assert!(events[0].2.contains("herdr — work"));

    // Unrelated hub events are not broadcast.
    server.hub.push(pane_closed("p_1"));
    assert!(server.events().is_empty());
    server.assert_alive();

    let payload = event_payload("notification.posted", 2, json(r#"{"kind":"toast"}"#));
    assert_eq!(
        encode_json(&payload),
        br#"{"data":{"kind":"toast"},"event":"notification.posted","seq":2}"#
    );
}

#[test]
fn framed_session_snapshot_requires_the_catalog_capability() {
    let mut server = Server::open(&["pane-stream"]);
    let error = server.ask(r#"{"id":"sn1","method":"session.snapshot","params":{}}"#);
    assert_eq!(text(&error, &["error", "code"]), Some("capability_not_negotiated"));
    assert_eq!(text(&error, &["error", "data", "capability"]), Some("catalog"));
}

#[test]
fn framed_session_snapshot_returns_snapshot_with_sequence_anchor() {
    let mut hub = EventHub::default();
    hub.push(pane_closed("p_0"));
    let anchor = hub.current_sequence();
    let mut server = Server::open_on(hub, &["catalog"]);
    let sequence = match server.step(br#"{"id":"sn2","method":"session.snapshot","params":{}}"#) {
        ControlStep::Anchor { request, sequence } => {
            assert_eq!(request.id, "sn2");
            assert!(matches!(request.method, AppMethod::SessionSnapshot));
            sequence
        }
        other => panic!("expected a snapshot, got {other:?}"),
    };
    let answer = br#"{"id":"sn2","result":{"snapshot":{"focused_workspace_id":"ws_1","protocol":3,"version":"test"},"type":"session_snapshot"}}"#;
    let response = decode_json(&anchor_snapshot(answer, sequence)).expect("json");
    assert_eq!(text(&response, &["id"]), Some("sn2"));
    assert_eq!(text(&response, &["result", "type"]), Some("session_snapshot"));
    assert_eq!(number(&response, &["result", "sequence"]), Some(anchor));
    assert_eq!(text(&response, &["result", "snapshot", "version"]), Some("test"));

    // The client-side parser reads the same shape.
    let (snapshot, sequence) = parse_session_snapshot(&response).unwrap();
    assert_eq!(sequence, anchor);
    assert_eq!(text(snapshot, &["focused_workspace_id"]), Some("ws_1"));

    // What is no JSON passes as it is; an error stays an error.
    assert_eq!(anchor_snapshot(b"gone wrong", 5), b"gone wrong");
    let error = decode_json(&anchor_snapshot(br#"{"error":{},"id":"x"}"#, 5)).expect("json");
    assert!(error.get("result").is_none());
}

#[test]
fn framed_api_request_passthrough_dispatches_and_relays() {
    let mut server = Server::open(&["catalog"]);
    let forward = |step: ControlStep, read: Result<(), String>| match step {
        ControlStep::Forward { id, request } => forward_api_request(&id, request, read),
        other => panic!("expected a forward, got {other:?}"),
    };
    let step = server.step(
        br#"{"id":"a1","method":"api.request","params":{"request":{"id":"a1","method":"workspace.focus","params":{"workspace_id":"ws_9"}}}}"#,
    );
    match forward(step, Ok(())) {
        Forwarding::Relay(request) => {
            assert_eq!(text(&request, &["method"]), Some("workspace.focus"));
            assert_eq!(text(&request, &["params", "workspace_id"]), Some("ws_9"));
        }
        other => panic!("expected a relay, got {other:?}"),
    }

    // Long-poll methods are rejected instead of wedging the session.
    for method in ["events.wait", "events.subscribe"] {
        let step = server.step(
            format!(
                "{{\"id\":\"a2\",\"method\":\"api.request\",\"params\":{{\"request\":{{\"id\":\"a2\",\"method\":\"{method}\",\"params\":{{}}}}}}}}"
            )
            .as_bytes(),
        );
        match forward(step, Ok(())) {
            Forwarding::Respond(rejected) => {
                assert_eq!(text(&rejected, &["error", "code"]), Some("invalid_params"))
            }
            other => panic!("expected a rejection, got {other:?}"),
        }
    }

    let step =
        server.step(br#"{"id":"a3","method":"api.request","params":{"request":{"method":1}}}"#);
    match forward(step, Err("unknown method".to_owned())) {
        Forwarding::Respond(rejected) => assert_eq!(
            text(&rejected, &["error", "message"]),
            Some("invalid api request: unknown method")
        ),
        other => panic!("expected a rejection, got {other:?}"),
    }
    let error = server.ask(r#"{"id":"a4","method":"api.request","params":{}}"#);
    assert_eq!(
        text(&error, &["error", "message"]),
        Some("api.request params carry no request")
    );
}

#[test]
fn framed_api_request_requires_the_catalog_capability() {
    let mut server = Server::open(&["pane-stream"]);
    let error = server.ask(
        r#"{"id":"a3","method":"api.request","params":{"request":{"id":"a3","method":"workspace.focus","params":{"workspace_id":"ws_1"}}}}"#,
    );
    assert_eq!(text(&error, &["error", "code"]), Some("capability_not_negotiated"));
}

#[test]
fn framed_catalog_events_broadcast_when_negotiated() {
    let mut server = Server::open(&["catalog"]);
    server.assert_alive();

    server.hub.push(pane_closed("p_1"));
    let events = server.events();
    assert_eq!(events[0].0, "catalog.event");
    assert!(events[0].1 > 0);
    assert!(events[0].2.contains("PaneClosed"));
    assert!(events[0].2.contains("p_1"));

    // Notification facts never masquerade as catalog events; without the
    // notification capability this event is skipped entirely.
    server.hub.push(notification("toast", "not a catalog fact", None));
    server.hub.push(EventEnvelope {
        data: EventData::WorkspaceFocused { workspace_id: "ws_2".to_owned() },
    });
    let events = server.events();
    assert_eq!(events.len(), 1);
    assert_eq!(events[0].0, "catalog.event");
    assert!(events[0].2.contains("WorkspaceFocused"));
    assert!(events[0].2.contains("ws_2"));
}

#[test]
fn framed_events_are_not_broadcast_without_capability() {
    let mut server = Server::open(&["pane-stream"]);
    server.hub.push(notification("sound", "ding", None));
    assert!(server.events().is_empty());
    assert_eq!(server.session.event_cursor, 1);
    server.assert_alive();
}

#[test]
fn lost_catalog_events_ask_for_a_resync() {
    let mut server = Server::open(&["catalog"]);
    for _ in 0..(MAX_EVENTS + 1) {
        server.hub.push(pane_closed("p_1"));
    }
    let events = server.events();
    assert_eq!(events.len(), MAX_EVENTS + 1);
    assert_eq!(events[0].0, "resync");
    assert_eq!(events[1].1, 2);
    // No event goes out twice.
    assert!(server.events().is_empty());
    assert_eq!(
        encode_json(&resync_payload()),
        br#"{"data":{"reason":"event_overflow"},"event":"catalog.resync"}"#
    );
}

#[test]
fn framed_stream_closed_event_when_pane_tap_drops() {
    let mut server = Server::open(&["pane-stream"]);
    let (stream_id, _) = server.open_stream("pane_1", false, "");
    let (outputs, end) =
        server.pump(vec![(stream_id, Drain { closed: true, ..bytes(b"last words") })]);
    assert_eq!(end, None);

    // Buffered bytes still arrive, then the stream is closed.
    assert_eq!(
        sent(&outputs[0]),
        (FrameType::Data, stream_id, b"last words".to_vec())
    );
    let closed = sent_json(&outputs[1]);
    assert_eq!(text(&closed, &["event"]), Some("stream.closed"));
    assert_eq!(number(&closed, &["data", "stream_id"]), Some(stream_id as u64));
    assert_eq!(text(&closed, &["data", "reason"]), Some("pane_closed"));

    // Session stays alive.
    server.assert_alive();
    assert_eq!(server.session.streams.len(), 0);
}

#[test]
fn framed_write_stream_grant_is_refused_then_taken_over_across_connections() {
    let mut holder = Server::open(&["pane-stream"]);
    let mut rival = Server::open(&["pane-stream"]);
    let (stream_id, _) = holder.open_stream("pane_write", true, "");

    // Without takeover the rival is refused and stays connected.
    let (refused_id, target) = match rival.step(
        br#"{"id":"w2","method":"stream.open","params":{"mode":"write","pane_id":"pane_write"}}"#,
    ) {
        ControlStep::Open { stream_id, target, .. } => (stream_id, target),
        other => panic!("expected an open, got {other:?}"),
    };
    let refusal = format!(
        "{{\"id\":\"w2\",\"error\":{{\"code\":\"{PANE_WRITE_LOCKED_ERROR}\",\"message\":\"pane pane_write already has a writable stream (stream {stream_id})\"}}}}"
    );
    let end = rival.session.finish_stream_open("w2", refused_id, target, refusal.as_bytes(), None);
    assert!(end.release.is_none());
    assert!(matches!(end.answer, OpenAnswer::Relay));
    assert_eq!(rival.session.streams.len(), 0);
    rival.assert_alive();

    // With takeover the rival wins and the holder is revoked on its own
    // stream, keeping its connection.
    match rival.step(
        br#"{"id":"w3","method":"stream.open","params":{"mode":"write","pane_id":"pane_write","takeover":true}}"#,
    ) {
        ControlStep::Open { request, .. } => match request.method {
            AppMethod::PaneStreamOpen { write, takeover, .. } => assert!(write && takeover),
            other => panic!("unexpected request: {other:?}"),
        },
        other => panic!("expected an open, got {other:?}"),
    }
    let (outputs, end) = holder.pump(vec![(stream_id, Drain { revoked: true, ..quiet() })]);
    assert_eq!(end, None);
    match &outputs[0] {
        Output::Tell(q) => {
            assert_eq!(q.id, format!("framed:stream.close:{stream_id}"));
            match &q.method {
                AppMethod::PaneStreamClose { pane_id, .. } => assert_eq!(pane_id, "pane_write"),
                other => panic!("unexpected request: {other:?}"),
            }
        }
        other => panic!("expected a release, got {other:?}"),
    }
    let revoked = sent_json(&outputs[1]);
    assert_eq!(text(&revoked, &["event"]), Some("stream.revoked"));
    assert_eq!(number(&revoked, &["data", "stream_id"]), Some(stream_id as u64));
    assert_eq!(text(&revoked, &["data", "reason"]), Some("taken_over"));
    holder.assert_alive();
}

#[test]
fn late_opens_are_released_by_their_target() {
    let mut server = Server::open(&["pane-stream"]);
    let attached = || Attachment {
        writable: true,
        history: PaneStreamHistory {
            pane_id: "pane_1".to_owned(),
            sequence: 0,
            content: String::new(),
        },
    };
    let end = server.session.finish_stream_open(
        "w",
        9,
        "agent".to_owned(),
        br#"{"error":{"code":"timeout","message":"m"},"id":"w"}"#,
        Some(attached()),
    );
    match end.release.expect("a release").method {
        AppMethod::PaneStreamClose { pane_id, stream_id } => {
            assert_eq!((pane_id.as_str(), stream_id), ("agent", 9));
        }
        other => panic!("unexpected request: {other:?}"),
    }
    assert_eq!(server.session.streams.len(), 0);
    let end = server.session.finish_stream_open(
        "w",
        9,
        "agent".to_owned(),
        br#"{"id":"w","result":{}}"#,
        None,
    );
    match end.answer {
        OpenAnswer::Error(error) => assert_eq!(
            text(&error, &["error", "message"]),
            Some("pane stream subscription was not attached")
        ),
        other => panic!("expected an error, got {other:?}"),
    }
}

#[test]
fn stream_ids_run_out_instead_of_wrapping() {
    let mut server = Server::open(&["pane-stream"]);
    server.ids.next = u32::MAX as u64;
    match server.step(br#"{"id":"s","method":"stream.open","params":{"pane_id":"p"}}"#) {
        ControlStep::Open { stream_id, .. } => assert_eq!(stream_id, u32::MAX),
        other => panic!("expected an open, got {other:?}"),
    }
    let error = server.ask(r#"{"id":"s","method":"stream.open","params":{"pane_id":"p"}}"#);
    assert_eq!(text(&error, &["error", "code"]), Some("stream_ids_exhausted"));
}

#[test]
fn an_ended_session_releases_every_write_stream() {
    let mut server = Server::open(&["pane-stream"]);
    let (first, _) = server.open_stream("a", true, "");
    server.open_stream("b", false, "");
    let (third, _) = server.open_stream("c", true, "");
    let released: Vec<String> = server.session.close_all().into_iter().map(|q| q.id).collect();
    assert_eq!(
        released,
        vec![
            format!("framed:stream.close:{first}"),
            format!("framed:stream.close:{third}"),
        ]
    );
    assert!(server.session.close_all().is_empty());
}

#[test]
fn framed_stream_resize_and_scroll_require_a_write_stream() {
    let mut server = Server::open(&["pane-stream"]);
    let (read_stream_id, _) = server.open_stream("pane_read", false, "");
    let refused = server.ask(&format!(
        "{{\"id\":\"rs1\",\"method\":\"stream.resize\",\"params\":{{\"stream_id\":{read_stream_id},\"cols\":100,\"rows\":30}}}}"
    ));
    assert_eq!(
        text(&refused, &["error", "code"]),
        Some("stream_not_write_holder")
    );

    let unknown = server.ask(
        r#"{"id":"sc1","method":"stream.scroll","params":{"direction":"up","lines":1,"stream_id":987654}}"#,
    );
    assert_eq!(text(&unknown, &["error", "code"]), Some("unknown_stream"));

    let (write_stream_id, _) = server.open_stream("pane_methods", true, "");
    let (_, method) = server.relay(&format!(
        "{{\"id\":\"rs2\",\"method\":\"stream.resize\",\"params\":{{\"stream_id\":{write_stream_id},\"cols\":100,\"rows\":30}}}}"
    ));
    match method {
        AppMethod::PaneStreamResize { pane_id, stream_id, cols, rows, cell_width_px, .. } => {
            assert_eq!(pane_id, "pane_methods");
            assert_eq!(stream_id, write_stream_id);
            assert_eq!((cols, rows, cell_width_px), (100, 30, 0));
        }
        other => panic!("unexpected request: {other:?}"),
    }
    let (_, method) = server.relay(&format!(
        "{{\"id\":\"sc2\",\"method\":\"stream.scroll\",\"params\":{{\"stream_id\":{write_stream_id},\"direction\":\"down\",\"lines\":2}}}}"
    ));
    match method {
        AppMethod::PaneStreamScroll { pane_id, scroll } => {
            assert_eq!(pane_id, "pane_methods");
            assert_eq!(scroll.lines, 2);
        }
        other => panic!("unexpected request: {other:?}"),
    }
}

#[test]
fn framed_stream_history_pages_walk_backward_gap_free() {
    let mut history = String::new();
    for line in 0..1500 {
        history.push_str(&format!("history line {line:04}\r\n"));
    }
    history.push_str("newest history line");

    let mut server = Server::open(&["pane-stream"]);
    let (stream_id, opened) = server.open_stream("pane_1", false, &history);
    let first_cursor = text(&opened, &["result", "stream", "history_cursor"])
        .unwrap()
        .to_owned();
    let mut cursor = first_cursor.clone();

    // Page backward with a small budget; the pages must reassemble the
    // capture exactly: gap-free, duplicate-free, newline-aligned.
    let mut pages: Vec<String> = Vec::new();
    let mut cuts: Vec<bool> = Vec::new();
    loop {
        let request = encode_json(&stream_history_request("hp", &cursor, 1));
        let reply = server.ask(std::str::from_utf8(&request).unwrap());
        let page = parse_stream_history(&reply).expect("history page");
        assert_eq!(page.stream_id, stream_id);
        assert!(!page.content.is_empty(), "pages must make progress");
        assert!(
            !page.content.contains("\x1b[?"),
            "history pages must never re-assert modes"
        );
        cuts.push(page.end_cut_mid_line);
        pages.push(page.content);
        match page.next_cursor {
            Some(next) => {
                assert!(!page.at_top);
                cursor = next;
            }
            None => {
                assert!(page.at_top);
                break;
            }
        }
    }
    assert!(pages.len() > 2, "budget must split the capture");
    let rejoined: String = pages.iter().rev().map(String::as_str).collect();
    assert_eq!(rejoined, history);
    // Newline alignment: every page after the first arrived ends exactly
    // where the previous started, which is right after a newline.
    for page in &pages[1..] {
        assert!(
            page.ends_with('\n'),
            "page boundary must be newline-aligned"
        );
    }
    assert!(
        cuts.iter().all(|cut| !cut),
        "newline-aligned boundaries must never be flagged as mid-line cuts"
    );

    // A jump-to-top sized fetch from the original cursor returns the whole
    // capture in one page.
    let request = encode_json(&stream_history_request(
        "jt",
        &first_cursor,
        HISTORY_FETCH_MAX_BYTES as u64,
    ));
    let full = parse_stream_history(&server.ask(std::str::from_utf8(&request).unwrap()))
        .expect("jump-to-top page");
    assert!(full.at_top);
    assert!(full.next_cursor.is_none());
    assert_eq!(full.content, history);
}

#[test]
fn framed_stream_history_hard_caps_pages_on_newline_free_history() {
    // One giant soft-wrapped logical line: no newline anywhere in the
    // capture. Pages must still honor the byte budget (mid-line cuts on char
    // boundaries) instead of growing without bound.
    let history = "x".repeat(20 * 1024);
    let mut server = Server::open(&["pane-stream"]);
    let (_, opened) = server.open_stream("pane_1", false, &history);
    let mut cursor = text(&opened, &["result", "stream", "history_cursor"])
        .unwrap()
        .to_owned();

    let mut pages: Vec<String> = Vec::new();
    let mut cuts: Vec<bool> = Vec::new();
    loop {
        let request = encode_json(&stream_history_request("nf", &cursor, 1));
        let page = parse_stream_history(&server.ask(std::str::from_utf8(&request).unwrap()))
            .expect("history page");
        assert!(!page.content.is_empty(), "pages must make progress");
        assert!(
            page.content.len() <= HISTORY_PAGE_MIN_BYTES + 3,
            "newline-free page must stay hard-capped, got {}",
            page.content.len()
        );
        cuts.push(page.end_cut_mid_line);
        pages.push(page.content);
        match page.next_cursor {
            Some(next) => cursor = next,
            None => {
                assert!(page.at_top);
                break;
            }
        }
    }
    assert!(pages.len() > 2, "budget must split the capture");
    let rejoined: String = pages.iter().rev().map(String::as_str).collect();
    assert_eq!(rejoined, history);
    // The first page ends at the capture end (not a cut); every later page
    // ends where a hard-capped start cut the logical line.
    assert!(!cuts[0], "the capture end is never a mid-line cut");
    assert!(
        cuts[1..].iter().all(|cut| *cut),
        "hard-capped newline-free boundaries must be flagged as cuts"
    );

    // The session survives the whole walk.
    server.assert_alive();
}

#[test]
fn framed_stream_history_rejects_bad_cursors_and_empty_history_is_at_top() {
    let mut server = Server::open(&["pane-stream"]);
    let (stream_id, opened) = server.open_stream("pane_1", false, "");
    let cursor = text(&opened, &["result", "stream", "history_cursor"])
        .unwrap()
        .to_owned();
    let fetch = |server: &mut Server, cursor: &str| {
        let request = encode_json(&stream_history_request("e", cursor, 4096));
        server.ask(std::str::from_utf8(&request).unwrap())
    };

    // Empty history: the very first page is already the top.
    let page = parse_stream_history(&fetch(&mut server, &cursor)).expect("empty history page");
    assert!(page.at_top);
    assert!(page.content.is_empty());
    assert!(page.next_cursor.is_none());

    // Undecodable cursor.
    let error = fetch(&mut server, "not-a-cursor");
    assert_eq!(text(&error, &["error", "code"]), Some("invalid_cursor"));

    // Cursor for a stream this session does not hold.
    let stray = encode_history_cursor(&HistoryCursor {
        pane_id: "pane_1".into(),
        sequence: 14,
        stream_id: stream_id.wrapping_add(7),
        offset: 0,
    });
    let error = fetch(&mut server, &stray);
    assert_eq!(text(&error, &["error", "code"]), Some("unknown_stream"));

    // Cursor whose capture identity does not match (stale sequence or
    // out-of-range offset).
    let stale = encode_history_cursor(&HistoryCursor {
        pane_id: "pane_1".into(),
        sequence: 99,
        stream_id,
        offset: 0,
    });
    let error = fetch(&mut server, &stale);
    assert_eq!(text(&error, &["error", "code"]), Some("invalid_cursor"));
    let overshoot = encode_history_cursor(&HistoryCursor {
        pane_id: "pane_1".into(),
        sequence: 14,
        stream_id,
        offset: 10_000,
    });
    let error = fetch(&mut server, &overshoot);
    assert_eq!(text(&error, &["error", "code"]), Some("invalid_cursor"));

    // The session survives all rejections.
    server.assert_alive();
}

#[test]
fn framed_stream_history_requires_pane_stream_capability() {
    let mut server = Server::open(&[]);
    let request = encode_json(&stream_history_request("g1", "whatever", 4096));
    let rejection = server.ask(std::str::from_utf8(&request).unwrap());
    assert_eq!(
        text(&rejection, &["error", "code"]),
        Some("capability_not_negotiated")
    );
    assert_eq!(
        text(&rejection, &["error", "data", "capability"]),
        Some("pane-stream")
    );
}

#[test]
fn framed_stream_close_of_unknown_stream_is_an_error() {
    let mut server = Server::open(&["pane-stream"]);
    let error =
        server.ask(r#"{"id":"c1","method":"stream.close","params":{"stream_id":424242}}"#);
    assert_eq!(text(&error, &["id"]), Some("c1"));
    assert_eq!(text(&error, &["error", "code"]), Some("unknown_stream"));
}

#[test]
fn the_largest_page_leaves_room_for_escaping() {
    // Each of these bytes is six long once escaped.
    let history = "\u{1}".repeat(2 * 1024 * 1024);
    let mut server = Server::open(&["pane-stream"]);
    let (_, opened) = server.open_stream("pane_1", false, &history);
    let cursor = text(&opened, &["result", "stream", "history_cursor"]).unwrap();
    let request = encode_json(&stream_history_request("big", cursor, u64::MAX));
    let page = parse_stream_history(&server.ask(std::str::from_utf8(&request).unwrap()))
        .expect("the served size leaves room for escaping");
    assert_eq!(page.content.len(), 524_288);
}

#[test]
fn walks_with_changing_sizes_give_the_capture_back() {
    let mut history = String::new();
    for line in 0..4000 {
        history.push_str(&format!("line {line:04} \u{e4}\u{20ac}\r\n"));
    }
    for write in [false, true] {
        let mut server = Server::open(&["pane-stream"]);
        let (_, opened) = server.open_stream("pane_1", write, &history);
        let mut cursor = text(&opened, &["result", "stream", "history_cursor"]).unwrap().to_owned();
        let mut joined = String::new();
        let mut sizes = [4_096, 65_536, 5_000, 1_048_576].iter().cycle();
        loop {
            let size = *sizes.next().expect("a size");
            let request = encode_json(&stream_history_request("w", &cursor, size));
            let reply = server.ask(std::str::from_utf8(&request).unwrap());
            let page = parse_stream_history(&reply).expect("history page");
            assert_eq!(page.at_top, page.next_cursor.is_none());
            joined.insert_str(0, &page.content);
            match page.next_cursor {
                Some(next) => cursor = next,
                None => break,
            }
        }
        assert_eq!(joined, history);
    }
}

#[test]
fn the_largest_page_fits_a_frame_however_it_is_escaped() {
    let history = "\u{1}".repeat(600_000);
    let mut server = Server::open(&["pane-stream"]);
    let (_, opened) = server.open_stream("pane_1", false, &history);
    let cursor = text(&opened, &["result", "stream", "history_cursor"]).unwrap().to_owned();
    let request = encode_json(&stream_history_request("w", &cursor, u64::MAX));
    let reply = server.ask(std::str::from_utf8(&request).unwrap());
    assert!(encode_json(&reply).len() <= MAX_FRAME_PAYLOAD);
    let page = parse_stream_history(&reply).expect("history page");
    assert_eq!(page.content.len(), 524_288);
}

#[test]
fn what_the_parser_objects_to_is_refused_in_its_words() {
    let twice = br#"{"id":"a","id":"b","method":"ping"}"#;
    let request = Objections { request: Some("duplicate field `id`".to_owned()), params: None };
    let handshake = negotiate_handshake(FrameType::Control, twice, &request, VERSION);
    assert_eq!(
        text(&handshake.reply, &["error", "message"]),
        Some("invalid control request: duplicate field `id`")
    );
    assert!(handshake.session.is_none());

    let mut server = Server::open(&["pane-stream"]);
    let refusal = |server: &mut Server, payload: &[u8], objections: &Objections| match server
        .session
        .handle_control_frame(payload, objections, &mut server.ids, 0, VERSION)
    {
        ControlStep::Respond(reply) => {
            text(&reply, &["error", "message"]).expect("message").to_owned()
        }
        other => panic!("expected an answer, got {other:?}"),
    };
    assert_eq!(
        refusal(&mut server, twice, &request),
        "invalid control request: duplicate field `id`"
    );
    let params = Objections {
        request: None,
        params: Some("invalid type: string \"x\", expected u32".to_owned()),
    };
    let close = br#"{"id":"c","method":"stream.close","params":{"stream_id":"x"}}"#;
    assert_eq!(
        refusal(&mut server, close, &params),
        "invalid stream.close params: invalid type: string \"x\", expected u32"
    );
    // A capability that is missing is told before the params are looked at.
    let paste = br#"{"id":"c","method":"pane.paste_image","params":{}}"#;
    assert!(refusal(&mut server, paste, &params).contains("paste-image"));
}
