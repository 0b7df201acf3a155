//! What follows once the app has done its part of a request.
use crate::api::server::dispatch::{
    error_response, error_view, maybe_request, request_views, AppRequest, AppRequestModel,
};
use crate::api::server::framed_session::{
    release_of, release_write_stream, FramedSession, OpenStream, PaneStreamHistory, ServedModel,
    StreamModel,
};
use crate::client_state::app_state::{views, views_insert};
use crate::json::{
    decode_json, encode_json, json_bytes, json_parsed, keyed, members_view, object_view, Json,
    JsonView,
};
use crate::protocol::framed::{error_of, opened_of, parse_stream_opened, snapshot_of};
use crate::seqs::{first_index, first_index_is, first_index_props, put};
use crate::text::same;
use vstd::prelude::*;
use vstd::string::*;

verus! {

/// What the app attached to a stream that it opened.
#[derive(Debug)]
pub struct Attachment {
    pub writable: bool,
    pub history: PaneStreamHistory,
}

/// How a `stream.open` is answered.
#[derive(Debug)]
pub enum OpenAnswer {
    /// With the app's own answer.
    Relay,
    Error(Json),
}

pub enum OpenAnswerModel {
    Relay,
    Error(JsonView),
}

impl View for OpenAnswer {
    type V = OpenAnswerModel;

    open spec fn view(&self) -> OpenAnswerModel {
        match *self {
            OpenAnswer::Relay => OpenAnswerModel::Relay,
            OpenAnswer::Error(j) => OpenAnswerModel::Error(j@),
        }
    }
}

/// The end of a `stream.open`: what the app is told, then the answer.
#[derive(Debug)]
pub struct OpenEnd {
    pub release: Option<AppRequest>,
    pub answer: OpenAnswer,
}

pub struct OpenEndModel {
    pub release: Option<AppRequestModel>,
    pub answer: OpenAnswerModel,
}

impl View for OpenEnd {
    type V = OpenEndModel;

    open spec fn view(&self) -> OpenEndModel {
        OpenEndModel { release: maybe_request(self.release), answer: self.answer@ }
    }
}

/// Whether the app's answer is a success.
pub open spec fn succeeded(v: Option<JsonView>) -> bool {
    v matches Some(v) && v.field("error"@) is None
}

/// The pane that an answer says the stream is of.
pub open spec fn opened_pane(v: JsonView) -> Seq<char> {
    match (error_of(v), opened_of(v)) {
        (None, Some(opened)) => opened.pane_id,
        _ => Seq::empty(),
    }
}

/// A stream with what the app attached to it.
pub open spec fn attached_stream(pane_id: Seq<char>, a: Attachment) -> StreamModel {
    StreamModel { pane_id, writable: a.writable, history: a.history@ }
}

/// How a `stream.open` ends. A refused or late open that was attached all the
/// same is released like any other stream, by the target it was opened with.
pub open spec fn open_end(
    id: Seq<char>,
    stream_id: u32,
    target: Seq<char>,
    answer: Option<JsonView>,
    attached: Option<Attachment>,
) -> OpenEndModel {
    if !succeeded(answer) {
        OpenEndModel {
            release: match attached {
                Some(a) => release_of(stream_id, attached_stream(target, a)),
                None => None,
            },
            answer: OpenAnswerModel::Relay,
        }
    } else {
        OpenEndModel {
            release: None,
            answer: match attached {
                Some(_) => OpenAnswerModel::Relay,
                None => OpenAnswerModel::Error(
                    error_view(
                        id,
                        "internal_error"@,
                        "pane stream subscription was not attached"@,
                        None,
                    ),
                ),
            },
        }
    }
}

impl ServedModel {
    /// The session once a `stream.open` has ended.
    pub open spec fn after_open(
        self,
        stream_id: u32,
        answer: Option<JsonView>,
        attached: Option<Attachment>,
    ) -> ServedModel {
        match (answer, attached) {
            (Some(v), Some(a)) => if succeeded(answer) {
                ServedModel {
                    streams: self.streams.insert(
                        stream_id,
                        attached_stream(opened_pane(v), a),
                    ),
                    ..self
                }
            } else {
                self
            },
            _ => self,
        }
    }
}

/// The view of an answer that may not be JSON.
pub open spec fn answer_view(a: Option<Json>) -> Option<JsonView> {
    match a {
        Some(v) => Some(v@),
        None => None,
    }
}

impl FramedSession {
    /// Ends a `stream.open` on the app's answer, if that is JSON, and on what
    /// the app attached.
    pub fn end_stream_open(
        &mut self,
        id: &str,
        stream_id: u32,
        target: String,
        answer: &Option<Json>,
        attached: Option<Attachment>,
    ) -> (r: OpenEnd)
        requires
            old(self).wf(),
        ensures
            final(self).wf(),
            final(self)@ == old(self)@.after_open(stream_id, answer_view(*answer), attached),
            r@ == open_end(id@, stream_id, target@, answer_view(*answer), attached),
    {
        let ghost before = self.streams@;
        let mut pane_id: Option<String> = None;
        if let Some(v) = answer {
            if v.get("error").is_none() {
                pane_id = Some(
                    match parse_stream_opened(v) {
                        Ok(opened) => opened.pane_id,
                        Err(_) => String::new(),
                    },
                );
                assert(pane_id->Some_0@ =~= opened_pane(v@));
            }
        }
        match (pane_id, attached) {
            (None, Some(a)) => {
                let open = OpenStream { pane_id: target, writable: a.writable, history: a.history };
                OpenEnd {
                    release: release_write_stream(stream_id, &open),
                    answer: OpenAnswer::Relay,
                }
            },
            (None, None) => OpenEnd { release: None, answer: OpenAnswer::Relay },
            (Some(pane_id), Some(a)) => {
                let open = OpenStream { pane_id, writable: a.writable, history: a.history };
                proof {
                    views_insert(before, stream_id, open);
                }
                self.streams.insert(stream_id, open);
                OpenEnd { release: None, answer: OpenAnswer::Relay }
            },
            (Some(_), None) => OpenEnd {
                release: None,
                answer: OpenAnswer::Error(
                    error_response(
                        id,
                        "internal_error",
                        "pane stream subscription was not attached",
                        None,
                    ),
                ),
            },
        }
    }

    /// Ends a `stream.open` on the app's answer as it came.
    pub fn finish_stream_open(
        &mut self,
        id: &str,
        stream_id: u32,
        target: String,
        response: &[u8],
        attached: Option<Attachment>,
    ) -> (r: OpenEnd)
        requires
            old(self).wf(),
        ensures
            final(self).wf(),
            final(self)@ == old(self)@.after_open(stream_id, json_parsed(response@), attached),
            r@ == open_end(id@, stream_id, target@, json_parsed(response@), attached),
    {
        let answer = decode_json(response);
        self.end_stream_open(id, stream_id, target, &answer, attached)
    }

    /// Ends the session: every stream goes, and the app is told of each that
    /// held a write grant, in stream order.
    pub fn close_all(&mut self) -> (r: Vec<AppRequest>)
        requires
            old(self).wf(),
        ensures
            final(self).wf(),
            final(self)@ == (ServedModel { streams: Map::empty(), ..old(self)@ }),
            request_views(r@) == all_releases(old(self).streams.entries@),
    {
        let ghost all = self.streams.entries@;
        let mut out: Vec<AppRequest> = Vec::new();
        let mut i: usize = 0;
        assert(request_views(out@) =~= Seq::empty());
        assert(all.take(0) =~= Seq::empty());
        while i < self.streams.entries.len()
            invariant
                *self == *old(self),
                all == self.streams.entries@,
                i <= all.len(),
                request_views(out@) == all_releases(all.take(i as int)),
            decreases all.len() - i,
        {
            let ghost was = out@;
            proof {
                assert(all.take(i + 1).drop_last() =~= all.take(i as int));
                assert(all.take(i + 1).last() == all[i as int]);
            }
            let entry = &self.streams.entries[i];
            if let Some(q) = release_write_stream(entry.0, &entry.1) {
                out.push(q);
                assert(request_views(out@) =~= request_views(was).push(q@));
            }
            i = i + 1;
        }
        assert(all.take(i as int) =~= all);
        self.streams.clear();
        assert(self@.streams =~= Map::<u32, StreamModel>::empty());
        out
    }
}

/// The releases of streams, in their order.
pub open spec fn all_releases(entries: Seq<(u32, OpenStream)>) -> Seq<AppRequestModel>
    decreases entries.len(),
{
    if entries.len() == 0 {
        Seq::empty()
    } else {
        let before = all_releases(entries.drop_last());
        match release_of(entries.last().0, entries.last().1@) {
            Some(q) => before.push(q),
            None => before,
        }
    }
}

proof fn releases_of_each(entries: Seq<(u32, OpenStream)>, q: AppRequestModel)
    ensures
        all_releases(entries).contains(q) <==> exists|i: int|
            0 <= i < entries.len() && release_of((#[trigger] entries[i]).0, entries[i].1@) == Some(
                q,
            ),
    decreases entries.len(),
{
    if entries.len() > 0 {
        let rest = entries.drop_last();
        releases_of_each(rest, q);
        let n = entries.len() - 1;
        let before = all_releases(rest);
        let all = all_releases(entries);
        if all.contains(q) && !before.contains(q) {
            let k = choose|k: int| 0 <= k < all.len() && all[k] == q;
            if k < before.len() {
                assert(before[k] == q);
            }
            assert(release_of(entries[n].0, entries[n].1@) == Some(q));
        }
        if before.contains(q) {
            let k = choose|k: int| 0 <= k < before.len() && before[k] == q;
            assert(all[k] == q);
            let i = choose|i: int|
                0 <= i < rest.len() && release_of((#[trigger] rest[i]).0, rest[i].1@) == Some(q);
            assert(entries[i] == rest[i]);
        }
        if exists|i: int|
            0 <= i < entries.len() && release_of((#[trigger] entries[i]).0, entries[i].1@) == Some(
                q,
            ) {
            let i = choose|i: int|
                0 <= i < entries.len() && release_of((#[trigger] entries[i]).0, entries[i].1@)
                    == Some(q);
            if i < n {
                assert(rest[i] == entries[i]);
            } else {
                assert(all.last() == q);
            }
        }
    }
}

/// A session that ends leaks no write grant: the app is told of exactly the
/// open streams that held one.
pub proof fn ending_releases_every_grant(s: FramedSession, q: AppRequestModel)
    requires
        s.wf(),
    ensures
        all_releases(s.streams.entries@).contains(q) <==> exists|id: u32| #[trigger]
            s@.streams.contains_key(id) && release_of(id, s@.streams[id]) == Some(q),
{
    let entries = s.streams.entries@;
    releases_of_each(entries, q);
    if exists|i: int|
        0 <= i < entries.len() && release_of((#[trigger] entries[i]).0, entries[i].1@) == Some(q) {
        let i = choose|i: int|
            0 <= i < entries.len() && release_of((#[trigger] entries[i]).0, entries[i].1@) == Some(
                q,
            );
        s.streams.lemma_at(i);
        assert(s@.streams.contains_key(entries[i].0));
    }
    if exists|id: u32| #[trigger]
        s@.streams.contains_key(id) && release_of(id, s@.streams[id]) == Some(q) {
        let id = choose|id: u32| #[trigger]
            s@.streams.contains_key(id) && release_of(id, s@.streams[id]) == Some(q);
        let i = s.streams.pos(id);
        assert(s.streams.has(id));
        assert(s.streams.at(i, id));
        s.streams.lemma_at(i);
    }
}

/// Members with one of them set: in its place if it is there, else behind
/// the others.
pub open spec fn with_set(
    members: Seq<(Seq<char>, JsonView)>,
    key: Seq<char>,
    value: JsonView,
) -> Seq<(Seq<char>, JsonView)> {
    put(members, keyed(key), (key, value))
}

fn set_member(members: Vec<(String, Json)>, key: &str, value: Json) -> (r: Vec<(String, Json)>)
    ensures
        members_view(r@) == with_set(members_view(members@), key@, value@),
{
    let ghost views = members_view(members@);
    let mut members = members;
    let mut i: usize = 0;
    while i < members.len() && !same(members[i].0.as_str(), key)
        invariant
            i <= members@.len(),
            views == members_view(members@),
            forall|j: int| 0 <= j < i ==> !keyed(key@)(#[trigger] views[j]),
        decreases members@.len() - i,
    {
        assert(views[i as int] == (members@[i as int].0@, members@[i as int].1@));
        i = i + 1;
    }
    proof {
        if i < members@.len() {
            assert(views[i as int] == (members@[i as int].0@, members@[i as int].1@));
        }
        first_index_is(views, keyed(key@), i as int);
    }
    let member = (key.to_owned(), value);
    if i < members.len() {
        members.set(i, member);
    } else {
        members.push(member);
    }
    assert(members_view(members@) =~= with_set(views, key@, value@));
    members
}

/// A snapshot answer with the sequence it is current through.
pub open spec fn anchored(v: JsonView, sequence: u64) -> JsonView {
    match v {
        JsonView::Object(members) => match v.field("result"@) {
            Some(JsonView::Object(result)) => JsonView::Object(
                with_set(
                    members,
                    "result"@,
                    JsonView::Object(
                        with_set(result, "sequence"@, JsonView::Unsigned(sequence)),
                    ),
                ),
            ),
            _ => v,
        },
        _ => v,
    }
}

/// Adds to a snapshot answer the sequence it is current through.
pub fn anchor_answer(v: Json, sequence: u64) -> (r: Json)
    ensures
        r@ == anchored(v@, sequence),
{
    let found = match v.get("result") {
        Some(r) => crate::json::copy_json(r),
        None => return v,
    };
    let result = match found {
        Json::Object(members) => {
            proof {
                object_view(members);
            }
            Json::object(set_member(members, "sequence", Json::Unsigned(sequence)))
        },
        _ => return v,
    };
    match v {
        Json::Object(members) => {
            proof {
                object_view(members);
            }
            Json::object(set_member(members, "result", result))
        },
        other => other,
    }
}

/// Adds the sequence to a snapshot answer as it came. What is no JSON passes
/// as it is.
pub fn anchor_snapshot(response: &[u8], sequence: u64) -> (r: Vec<u8>)
    ensures
        r@ == match json_parsed(response@) {
            Some(v) => json_bytes(anchored(v, sequence)),
            None => response@,
        },
{
    match decode_json(response) {
        Some(v) => encode_json(&anchor_answer(v, sequence)),
        None => vstd::slice::slice_to_vec(response),
    }
}

/// The client reads back the sequence that a snapshot answer was anchored at.
pub proof fn anchors_are_read_back(v: JsonView, sequence: u64)
    requires
        v.field("result"@) matches Some(JsonView::Object(_)),
        v.field("result"@)->Some_0.field("snapshot"@) is Some,
    ensures
        snapshot_of(anchored(v, sequence)) == Some(
            (v.field("result"@)->Some_0.field("snapshot"@)->Some_0, sequence),
        ),
{
    let result = v.field("result"@)->Some_0->Object_0;
    let members = v->Object_0;
    reveal_strlit("sequence");
    reveal_strlit("snapshot");
    assert("snapshot"@[1] != "sequence"@[1]);
    set_is_read(result, "sequence"@, JsonView::Unsigned(sequence), "snapshot"@);
    set_is_read(result, "sequence"@, JsonView::Unsigned(sequence), "sequence"@);
    set_is_read(
        members,
        "result"@,
        JsonView::Object(with_set(result, "sequence"@, JsonView::Unsigned(sequence))),
        "result"@,
    );
}

/// A member that was set is read back, and every other member stays.
proof fn set_is_read(
    members: Seq<(Seq<char>, JsonView)>,
    key: Seq<char>,
    value: JsonView,
    other: Seq<char>,
)
    ensures
        JsonView::Object(with_set(members, key, value)).field(other) == if other == key {
            Some(value)
        } else {
            JsonView::Object(members).field(other)
        },
{
    let set = with_set(members, key, value);
    first_index_props(members, keyed(key));
    first_index_props(members, keyed(other));
    let i = first_index(members, keyed(key));
    if other == key {
        assert forall|j: int| 0 <= j < i implies !keyed(key)(#[trigger] set[j]) by {
            assert(set[j] == members[j]);
        }
        first_index_is(set, keyed(key), i);
    } else {
        let k = first_index(members, keyed(other));
        assert forall|j: int| 0 <= j < k implies !keyed(other)(#[trigger] set[j]) by {
            if j != i {
                assert(set[j] == members[j]);
            }
        }
        if k < members.len() {
            first_index_is(set, keyed(other), k);
        } else {
            first_index_is(set, keyed(other), set.len() as int);
        }
    }
}

/// Whether an API method waits for events. Such a method would hold the
/// session up, and cannot be forwarded.
pub open spec fn waits(method: Option<Seq<char>>) -> bool {
    method == Some("events.subscribe"@) || method == Some("events.wait"@)
}

/// What becomes of an API request in an envelope.
#[derive(Debug)]
pub enum Forwarding {
    Respond(Json),
    /// Have the app do it, and hand its answer on.
    Relay(Json),
}

pub enum ForwardingModel {
    Respond(JsonView),
    Relay(JsonView),
}

impl View for Forwarding {
    type V = ForwardingModel;

    open spec fn view(&self) -> ForwardingModel {
        match *self {
            Forwarding::Respond(j) => ForwardingModel::Respond(j@),
            Forwarding::Relay(j) => ForwardingModel::Relay(j@),
        }
    }
}

/// What an API request comes to, by whether it could be read.
pub open spec fn forwarding(id: Seq<char>, request: JsonView, read: Result<(), String>) ->
    ForwardingModel {
    match read {
        Err(e) => ForwardingModel::Respond(
            error_view(id, "invalid_params"@, "invalid api request: "@ + e@, None),
        ),
        Ok(_) => if waits(request.text_field("method"@)) {
            ForwardingModel::Respond(
                error_view(
                    id,
                    "invalid_params"@,
                    "long-poll methods are not available over api.request; negotiate the catalog capability for events"@,
                    None,
                ),
            )
        } else {
            ForwardingModel::Relay(request)
        },
    }
}

/// Forwards an API request that could be read; refuses one that could not, or
/// that waits for events.
pub fn forward_api_request(id: &str, request: Json, read: Result<(), String>) -> (r: Forwarding)
    ensures
        r@ == forwarding(id@, request@, read),
{
    if let Err(e) = read {
        let message = "invalid api request: ".to_owned().concat(e.as_str());
        return Forwarding::Respond(error_response(id, "invalid_params", message.as_str(), None));
    }
    let long_poll: bool = match request.text_of("method") {
        Some(m) => same(m, "events.subscribe") || same(m, "events.wait"),
        None => false,
    };
    if long_poll {
        return Forwarding::Respond(
            error_response(
                id,
                "invalid_params",
                "long-poll methods are not available over api.request; negotiate the catalog capability for events",
                None,
            ),
        );
    }
    Forwarding::Relay(request)
}

} // verus!
