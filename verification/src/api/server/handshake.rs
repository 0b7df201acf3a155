//! How a framed session opens.
use crate::api::server::dispatch::{error_response, error_view, result_response, result_view};
use crate::api::server::requests::{
    hello_params, parse_hello_params, read_control_request, request_read, ControlRequest,
    Objections, RequestModel,
};
use crate::json::{items_view, members_view, no_members, with_member, Json, JsonView};
use crate::protocol::framed::{
    FrameType, HelloRemedy, NegotiatedSession, PROTOCOL_OUT_OF_WINDOW_CODE, SESSION_HELLO_METHOD,
    WELCOME_TYPE,
};
use crate::protocol::hello::{
    empty_window_message, granted, negotiate_session_hello, newer_client_message,
    older_client_message, HelloError, HelloModel, SessionHelloParams, FRAMED_PROTOCOL_MIN_SUPPORTED,
    FRAMED_PROTOCOL_VERSION,
};
use crate::text::{same, texts};
use vstd::prelude::*;
use vstd::string::*;

verus! {

/// A capability list on the wire.
pub open spec fn capability_list(list: Seq<Seq<char>>) -> JsonView {
    JsonView::Array(list.map_values(|c: Seq<char>| JsonView::Text(c)))
}

/// The answer to a hello that is accepted.
pub open spec fn welcome_view(
    id: Seq<char>,
    protocol: u32,
    capabilities: Seq<Seq<char>>,
    version: Seq<char>,
) -> JsonView {
    result_view(
        id,
        JsonView::Object(
            seq![
                ("type"@, JsonView::Text(WELCOME_TYPE@)),
                ("protocol"@, JsonView::Unsigned(protocol as u64)),
                ("min_protocol"@, JsonView::Unsigned(FRAMED_PROTOCOL_MIN_SUPPORTED as u64)),
                ("capabilities"@, capability_list(capabilities)),
                ("server_version"@, JsonView::Text(version)),
            ],
        ),
    )
}

fn capability_json(list: &Vec<String>) -> (r: Json)
    ensures
        r@ == capability_list(texts(list@)),
{
    let mut items: Vec<Json> = Vec::new();
    let mut i: usize = 0;
    while i < list.len()
        invariant
            i <= list@.len(),
            items@.len() == i,
            forall|j: int| 0 <= j < i ==> (#[trigger] items@[j])@ == JsonView::Text(list@[j]@),
        decreases list@.len() - i,
    {
        items.push(Json::from_text(list[i].as_str()));
        i = i + 1;
    }
    assert(items_view(items@) =~= texts(list@).map_values(|c: Seq<char>| JsonView::Text(c)));
    Json::array(items)
}

fn welcome_response(id: &str, session: &NegotiatedSession, version: &str) -> (r: Json)
    ensures
        r@ == welcome_view(id@, session.protocol, texts(session.capabilities@), version@),
{
    let m = with_member(no_members(), "type", Json::from_text(WELCOME_TYPE));
    let m = with_member(m, "protocol", Json::Unsigned(session.protocol as u64));
    let m = with_member(
        m,
        "min_protocol",
        Json::Unsigned(FRAMED_PROTOCOL_MIN_SUPPORTED as u64),
    );
    let m = with_member(m, "capabilities", capability_json(&session.capabilities));
    let m = with_member(m, "server_version", Json::from_text(version));
    assert(members_view(m@) =~= seq![
        ("type"@, JsonView::Text(WELCOME_TYPE@)),
        ("protocol"@, JsonView::Unsigned(session.protocol as u64)),
        ("min_protocol"@, JsonView::Unsigned(FRAMED_PROTOCOL_MIN_SUPPORTED as u64)),
        ("capabilities"@, capability_list(texts(session.capabilities@))),
        ("server_version"@, JsonView::Text(version@)),
    ]);
    result_response(id, Json::object(m))
}

/// What both sides speak, for the side that has to be upgraded.
pub open spec fn window_view(remedy: HelloRemedy, p: HelloModel) -> JsonView {
    JsonView::Object(
        seq![
            ("remedy"@, JsonView::Text(remedy.wire())),
            ("server_protocol"@, JsonView::Unsigned(FRAMED_PROTOCOL_VERSION as u64)),
            ("server_min_protocol"@, JsonView::Unsigned(FRAMED_PROTOCOL_MIN_SUPPORTED as u64)),
            ("client_protocol"@, JsonView::Unsigned(p.protocol as u64)),
            ("client_min_protocol"@, JsonView::Unsigned(p.oldest() as u64)),
        ],
    )
}

fn window_json(remedy: HelloRemedy, p: &SessionHelloParams) -> (r: Json)
    ensures
        r@ == window_view(remedy, p@),
{
    let m = with_member(no_members(), "remedy", Json::from_text(remedy.as_str()));
    let m = with_member(m, "server_protocol", Json::Unsigned(FRAMED_PROTOCOL_VERSION as u64));
    let m = with_member(
        m,
        "server_min_protocol",
        Json::Unsigned(FRAMED_PROTOCOL_MIN_SUPPORTED as u64),
    );
    let m = with_member(m, "client_protocol", Json::Unsigned(p.protocol as u64));
    let m = with_member(m, "client_min_protocol", Json::Unsigned(p.oldest_protocol() as u64));
    proof {
        let expected = window_view(remedy, p@)->Object_0;
        assert(members_view(m@) =~= expected);
    }
    Json::object(m)
}

/// What a session agreed on.
pub struct SessionModel {
    pub protocol: u32,
    pub capabilities: Seq<Seq<char>>,
}

impl View for NegotiatedSession {
    type V = SessionModel;

    open spec fn view(&self) -> SessionModel {
        SessionModel { protocol: self.protocol, capabilities: texts(self.capabilities@) }
    }
}

/// How an opening frame is answered: with a welcome and a session, or with an
/// error that ends the connection.
#[derive(Debug)]
pub struct Handshake {
    pub reply: Json,
    pub session: Option<NegotiatedSession>,
}

pub struct HandshakeModel {
    pub reply: JsonView,
    pub session: Option<SessionModel>,
}

impl View for Handshake {
    type V = HandshakeModel;

    open spec fn view(&self) -> HandshakeModel {
        HandshakeModel {
            reply: self.reply@,
            session: match self.session {
                Some(s) => Some(s@),
                None => None,
            },
        }
    }
}

pub open spec fn refused(id: Seq<char>, message: Seq<char>) -> HandshakeModel {
    HandshakeModel { reply: error_view(id, "invalid_request"@, message, None), session: None }
}

fn refuse(id: &str, message: &str) -> (r: Handshake)
    ensures
        r@ == refused(id@, message@),
{
    Handshake { reply: error_response(id, "invalid_request", message, None), session: None }
}

/// How well-formed hello params are answered.
pub open spec fn hello_answer(id: Seq<char>, p: HelloModel, version: Seq<char>) ->
    HandshakeModel {
    if p.oldest() > p.protocol {
        refused(id, empty_window_message(p))
    } else if p.oldest() > FRAMED_PROTOCOL_VERSION {
        HandshakeModel {
            reply: error_view(
                id,
                PROTOCOL_OUT_OF_WINDOW_CODE@,
                newer_client_message(p),
                Some(window_view(HelloRemedy::UpgradeServer, p)),
            ),
            session: None,
        }
    } else if p.protocol < FRAMED_PROTOCOL_MIN_SUPPORTED {
        HandshakeModel {
            reply: error_view(
                id,
                PROTOCOL_OUT_OF_WINDOW_CODE@,
                older_client_message(p),
                Some(window_view(HelloRemedy::UpgradeClient, p)),
            ),
            session: None,
        }
    } else {
        let protocol = if p.protocol < FRAMED_PROTOCOL_VERSION {
            p.protocol
        } else {
            FRAMED_PROTOCOL_VERSION
        };
        let capabilities = granted(p.capabilities);
        HandshakeModel {
            reply: welcome_view(id, protocol, capabilities, version),
            session: Some(SessionModel { protocol, capabilities }),
        }
    }
}

/// How a first request is answered: it has to be a hello with params that
/// can be read.
pub open spec fn first_answer(q: RequestModel, version: Seq<char>) -> HandshakeModel {
    if q.method != SESSION_HELLO_METHOD@ {
        refused(q.id, "expected session.hello as the first control request, got "@ + q.method)
    } else {
        match q.agreed(hello_params(q.params)) {
            Err(e) => refused(q.id, "invalid session.hello params: "@ + e),
            Ok(p) => hello_answer(q.id, p, version),
        }
    }
}

/// Answers the first request.
pub fn negotiate_request(q: &ControlRequest, version: &str) -> (r: Handshake)
    ensures
        r@ == first_answer(q@, version@),
{
    if !same(q.method.as_str(), SESSION_HELLO_METHOD) {
        let message = "expected session.hello as the first control request, got ".to_owned().concat(
            q.method.as_str(),
        );
        return refuse(q.id.as_str(), message.as_str());
    }
    let params = match q.agree(parse_hello_params(&q.params)) {
        Ok(p) => p,
        Err(e) => {
            let message = "invalid session.hello params: ".to_owned().concat(e.as_str());
            return refuse(q.id.as_str(), message.as_str());
        },
    };
    match negotiate_session_hello(&params) {
        Ok(session) => {
            let reply = welcome_response(q.id.as_str(), &session, version);
            Handshake { reply, session: Some(session) }
        },
        Err(HelloError::InvalidWindow { message }) => refuse(q.id.as_str(), message.as_str()),
        Err(HelloError::OutOfWindow { remedy, message }) => Handshake {
            reply: error_response(
                q.id.as_str(),
                PROTOCOL_OUT_OF_WINDOW_CODE,
                message.as_str(),
                Some(window_json(remedy, &params)),
            ),
            session: None,
        },
    }
}

/// How an opening frame is answered.
pub open spec fn opening_answer(
    frame_type: FrameType,
    payload: Seq<u8>,
    objections: Objections,
    version: Seq<char>,
) -> HandshakeModel {
    if frame_type != FrameType::Control {
        refused(Seq::empty(), "expected a session.hello control frame"@)
    } else {
        match request_read(payload, objections) {
            Err(e) => refused(Seq::empty(), "invalid control request: "@ + e),
            Ok(q) => first_answer(q, version),
        }
    }
}

/// Answers the opening frame of a connection.
pub fn negotiate_handshake(
    frame_type: FrameType,
    payload: &[u8],
    objections: &Objections,
    version: &str,
) -> (r: Handshake)
    ensures
        r@ == opening_answer(frame_type, payload@, *objections, version@),
{
    proof {
        reveal_strlit("");
        assert(""@ =~= Seq::<char>::empty());
    }
    if frame_type != FrameType::Control {
        return refuse("", "expected a session.hello control frame");
    }
    match read_control_request(payload, objections) {
        Err(e) => {
            let message = "invalid control request: ".to_owned().concat(e.as_str());
            refuse("", message.as_str())
        },
        Ok(q) => negotiate_request(&q, version),
    }
}

} // verus!
