//! What a session sends of its own accord: pane output, streams that go, and
//! events.
use crate::api::event_hub::{EventHub, HubModel};
use crate::api::schema::{EventData, EventEnvelope};
use crate::api::server::dispatch::{overload_response, overload_view, AppRequest, AppRequestModel};
use crate::api::server::framed_session::{
    release_of, release_write_stream, FramedSession, ServedModel, StreamModel,
};
use crate::client_state::app_state::views_remove;
use crate::json::{encode_json, json_bytes, object1, object2, object3, written, Json, JsonView};
use crate::protocol::frame::FrameModel;
use crate::protocol::framed::{
    Frame, FrameType, CAPABILITY_CATALOG, CAPABILITY_NOTIFICATION, CAPABILITY_WINDOW_TITLE,
    CATALOG_EVENT, CATALOG_RESYNC_EVENT, CONTROL_STREAM_ID, NOTIFICATION_POSTED_EVENT,
    STREAM_CLOSED_EVENT, STREAM_REVOKED_EVENT, WINDOW_TITLE_CHANGED_EVENT,
};
use crate::seqs::{first_index, first_index_is};
use vstd::prelude::*;

verus! {

/// What an open stream has since it was last looked at.
#[derive(Debug)]
pub struct Drain {
    pub bytes: Vec<u8>,
    /// Its client fell behind by more than the buffer holds.
    pub overloaded: bool,
    /// Its pane is gone.
    pub closed: bool,
    /// Its write grant was taken over.
    pub revoked: bool,
}

/// One thing to do, in order. Requests to the app are owed even to a peer
/// that is gone.
#[derive(Debug)]
pub enum Output {
    Send(Frame),
    Tell(AppRequest),
}

pub enum OutputModel {
    Send(FrameModel),
    Tell(AppRequestModel),
}

impl View for Output {
    type V = OutputModel;

    open spec fn view(&self) -> OutputModel {
        match *self {
            Output::Send(f) => OutputModel::Send(f@),
            Output::Tell(q) => OutputModel::Tell(q@),
        }
    }
}

pub open spec fn output_views(s: Seq<Output>) -> Seq<OutputModel> {
    s.map_values(|o: Output| o@)
}

/// Why a session ends.
#[derive(Clone, Copy, PartialEq, Eq, Structural, Debug)]
pub enum SessionEnd {
    PeerClosed,
    ServerStopped,
    ProtocolError,
    Overloaded,
}

/// What a look at the open streams comes to.
#[derive(Debug)]
pub struct Pumped {
    pub outputs: Vec<Output>,
    pub end: Option<SessionEnd>,
}

/// A value in a control frame.
pub open spec fn control_frame_view(v: JsonView) -> FrameModel {
    FrameModel {
        frame_type: FrameType::Control,
        stream_id: CONTROL_STREAM_ID,
        payload: json_bytes(v),
    }
}

/// Puts a value in a control frame.
pub fn control_frame(v: &Json) -> (r: Frame)
    ensures
        r@ == control_frame_view(v@),
        written(r.payload@, v@),
{
    Frame {
        frame_type: FrameType::Control,
        stream_id: CONTROL_STREAM_ID,
        payload: encode_json(v),
    }
}

/// The event that tells of a stream that is gone.
pub open spec fn gone_view(event: Seq<char>, stream_id: u32, reason: Seq<char>) -> JsonView {
    JsonView::Object(
        seq![
            ("event"@, JsonView::Text(event)),
            (
                "data"@,
                JsonView::Object(
                    seq![
                        ("stream_id"@, JsonView::Unsigned(stream_id as u64)),
                        ("reason"@, JsonView::Text(reason)),
                    ],
                ),
            ),
        ],
    )
}

fn gone_event(event: &str, stream_id: u32, reason: &str) -> (r: Json)
    ensures
        r@ == gone_view(event@, stream_id, reason@),
{
    object2(
        "event",
        Json::from_text(event),
        "data",
        object2(
            "stream_id",
            Json::Unsigned(stream_id as u64),
            "reason",
            Json::from_text(reason),
        ),
    )
}

pub open spec fn is_overloaded() -> spec_fn((u32, Drain)) -> bool {
    |d: (u32, Drain)| d.1.overloaded
}

/// The output of streams as data frames, in order; none for a silent stream.
pub open spec fn data_frames(drains: Seq<(u32, Drain)>) -> Seq<OutputModel>
    decreases drains.len(),
{
    if drains.len() == 0 {
        Seq::empty()
    } else {
        let (stream_id, drain) = drains.last();
        let before = data_frames(drains.drop_last());
        if drain.bytes@.len() == 0 {
            before
        } else {
            before.push(
                OutputModel::Send(
                    FrameModel {
                        frame_type: FrameType::Data,
                        stream_id,
                        payload: drain.bytes@,
                    },
                ),
            )
        }
    }
}

/// The streams whose pane is gone.
pub open spec fn closed_ids(drains: Seq<(u32, Drain)>) -> Seq<u32>
    decreases drains.len(),
{
    if drains.len() == 0 {
        Seq::empty()
    } else if drains.last().1.closed {
        closed_ids(drains.drop_last()).push(drains.last().0)
    } else {
        closed_ids(drains.drop_last())
    }
}

/// The streams whose pane is there, but whose write grant was taken over.
pub open spec fn revoked_ids(drains: Seq<(u32, Drain)>) -> Seq<u32>
    decreases drains.len(),
{
    if drains.len() == 0 {
        Seq::empty()
    } else if !drains.last().1.closed && drains.last().1.revoked {
        revoked_ids(drains.drop_last()).push(drains.last().0)
    } else {
        revoked_ids(drains.drop_last())
    }
}

/// The streams that stay once some are gone.
pub open spec fn without(streams: Map<u32, StreamModel>, ids: Seq<u32>) -> Map<u32, StreamModel>
    decreases ids.len(),
{
    if ids.len() == 0 {
        streams
    } else {
        without(streams, ids.drop_last()).remove(ids.last())
    }
}

/// What is done about streams that go: each is released, then its client is
/// told.
pub open spec fn goings(
    streams: Map<u32, StreamModel>,
    ids: Seq<u32>,
    event: Seq<char>,
    reason: Seq<char>,
) -> Seq<OutputModel>
    decreases ids.len(),
{
    if ids.len() == 0 {
        Seq::empty()
    } else {
        let rest = without(streams, ids.drop_last());
        let id = ids.last();
        let before = goings(streams, ids.drop_last(), event, reason);
        let told = if rest.contains_key(id) {
            match release_of(id, rest[id]) {
                Some(q) => before.push(OutputModel::Tell(q)),
                None => before,
            }
        } else {
            before
        };
        told.push(OutputModel::Send(control_frame_view(gone_view(event, id, reason))))
    }
}

impl ServedModel {
    /// What a look at the open streams sends. The first stream that was
    /// overrun ends the session.
    pub open spec fn pump_outputs(self, drains: Seq<(u32, Drain)>) -> Seq<OutputModel> {
        let k = first_index(drains, is_overloaded());
        if k < drains.len() {
            data_frames(drains.take(k)).push(
                OutputModel::Send(control_frame_view(overload_view(drains[k].0))),
            )
        } else {
            data_frames(drains) + goings(
                self.streams,
                closed_ids(drains),
                STREAM_CLOSED_EVENT@,
                "pane_closed"@,
            ) + goings(
                without(self.streams, closed_ids(drains)),
                revoked_ids(drains),
                STREAM_REVOKED_EVENT@,
                "taken_over"@,
            )
        }
    }

    pub open spec fn pump_end(self, drains: Seq<(u32, Drain)>) -> Option<SessionEnd> {
        if first_index(drains, is_overloaded()) < drains.len() {
            Some(SessionEnd::Overloaded)
        } else {
            None
        }
    }

    /// The session after a look at the open streams.
    pub open spec fn after_pump(self, drains: Seq<(u32, Drain)>) -> ServedModel {
        if first_index(drains, is_overloaded()) < drains.len() {
            self
        } else {
            ServedModel {
                streams: without(
                    without(self.streams, closed_ids(drains)),
                    revoked_ids(drains),
                ),
                ..self
            }
        }
    }
}

impl FramedSession {
    /// Drops streams, releases them and tells the client of each.
    fn drop_gone(&mut self, ids: &Vec<u32>, event: &str, reason: &str, outputs: &mut Vec<Output>)
        requires
            old(self).wf(),
        ensures
            final(self).wf(),
            final(self)@ == (ServedModel {
                streams: without(old(self)@.streams, ids@),
                ..old(self)@
            }),
            output_views(final(outputs)@) == output_views(old(outputs)@) + goings(
                old(self)@.streams,
                ids@,
                event@,
                reason@,
            ),
    {
        let ghost before = self@;
        let ghost first = output_views(outputs@);
        let mut i: usize = 0;
        assert(ids@.take(0) =~= Seq::<u32>::empty());
        assert(output_views(outputs@) =~= first + goings(before.streams, ids@.take(0), event@, reason@));
        while i < ids.len()
            invariant
                i <= ids@.len(),
                self.wf(),
                self@ == (ServedModel {
                    streams: without(before.streams, ids@.take(i as int)),
                    ..before
                }),
                output_views(outputs@) == first + goings(
                    before.streams,
                    ids@.take(i as int),
                    event@,
                    reason@,
                ),
            decreases ids@.len() - i,
        {
            let id: u32 = ids[i];
            let ghost streams = self.streams@;
            let ghost was = outputs@;
            let ghost so_far = goings(before.streams, ids@.take(i as int), event@, reason@);
            proof {
                assert(ids@.take(i + 1).drop_last() =~= ids@.take(i as int));
                views_remove(streams, id);
            }
            let ghost mut told = so_far;
            if let Some(open) = self.streams.remove(&id) {
                if let Some(q) = release_write_stream(id, &open) {
                    outputs.push(Output::Tell(q));
                    assert(output_views(outputs@) =~= output_views(was).push(OutputModel::Tell(q@)));
                    assert(output_views(outputs@) =~= first + so_far.push(OutputModel::Tell(q@)));
                    proof {
                        told = so_far.push(OutputModel::Tell(q@));
                    }
                }
            }
            let ghost mid = outputs@;
            let frame = control_frame(&gone_event(event, id, reason));
            outputs.push(Output::Send(frame));
            proof {
                assert(output_views(outputs@) =~= output_views(mid).push(
                    OutputModel::Send(frame@),
                ));
                assert(output_views(outputs@) =~= first + told.push(OutputModel::Send(frame@)));
            }
            i = i + 1;
        }
        assert(ids@.take(i as int) =~= ids@);
    }

    /// Looks at the open streams: `drains` has what each of them has.
    pub fn pump_streams(&mut self, drains: &Vec<(u32, Drain)>) -> (r: Pumped)
        requires
            old(self).wf(),
        ensures
            final(self).wf(),
            final(self)@ == old(self)@.after_pump(drains@),
            output_views(r.outputs@) == old(self)@.pump_outputs(drains@),
            r.end == old(self)@.pump_end(drains@),
    {
        let mut outputs: Vec<Output> = Vec::new();
        let mut closed: Vec<u32> = Vec::new();
        let mut revoked: Vec<u32> = Vec::new();
        let mut i: usize = 0;
        assert(drains@.take(0) =~= Seq::empty());
        assert(output_views(outputs@) =~= Seq::empty());
        assert(closed@ =~= Seq::<u32>::empty());
        while i < drains.len()
            invariant
                i <= drains@.len(),
                *self == *old(self),
                self.wf(),
                forall|j: int| 0 <= j < i ==> !is_overloaded()(#[trigger] drains@[j]),
                output_views(outputs@) == data_frames(drains@.take(i as int)),
                closed@ == closed_ids(drains@.take(i as int)),
                revoked@ == revoked_ids(drains@.take(i as int)),
            decreases drains@.len() - i,
        {
            let ghost was = outputs@;
            proof {
                assert(drains@.take(i + 1).drop_last() =~= drains@.take(i as int));
                assert(drains@.take(i + 1).last() == drains@[i as int]);
            }
            let stream_id: u32 = drains[i].0;
            let drain = &drains[i].1;
            if drain.overloaded {
                let frame = control_frame(&overload_response(stream_id));
                outputs.push(Output::Send(frame));
                proof {
                    first_index_is(drains@, is_overloaded(), i as int);
                    assert(output_views(outputs@) =~= output_views(was).push(
                        OutputModel::Send(frame@),
                    ));
                }
                return Pumped { outputs, end: Some(SessionEnd::Overloaded) };
            }
            if drain.bytes.len() > 0 {
                let payload = vstd::slice::slice_to_vec(drain.bytes.as_slice());
                let frame = Frame { frame_type: FrameType::Data, stream_id, payload };
                outputs.push(Output::Send(frame));
                assert(output_views(outputs@) =~= output_views(was).push(
                    OutputModel::Send(frame@),
                ));
            }
            if drain.closed {
                closed.push(stream_id);
            } else if drain.revoked {
                revoked.push(stream_id);
            }
            i = i + 1;
        }
        proof {
            first_index_is(drains@, is_overloaded(), drains@.len() as int);
            assert(drains@.take(i as int) =~= drains@);
        }
        self.drop_gone(&closed, STREAM_CLOSED_EVENT, "pane_closed", &mut outputs);
        self.drop_gone(&revoked, STREAM_REVOKED_EVENT, "taken_over", &mut outputs);
        Pumped { outputs, end: None }
    }
}

/// An event on its way to a client.
#[derive(Debug)]
pub enum Broadcast<'a> {
    /// Catalog events were lost: only a fresh snapshot repairs the mirror.
    Resync,
    /// An event under a name; the whole envelope, or only what is in it.
    Event { event: &'static str, sequence: u64, whole: bool, envelope: &'a EventEnvelope },
}

pub enum BroadcastModel {
    Resync,
    Event { event: Seq<char>, sequence: int, whole: bool, envelope: EventEnvelope },
}

impl<'a> View for Broadcast<'a> {
    type V = BroadcastModel;

    open spec fn view(&self) -> BroadcastModel {
        match *self {
            Broadcast::Resync => BroadcastModel::Resync,
            Broadcast::Event { event, sequence, whole, envelope } => BroadcastModel::Event {
                event: event@,
                sequence: sequence as int,
                whole,
                envelope: *envelope,
            },
        }
    }
}

pub open spec fn broadcast_views(s: Seq<Broadcast>) -> Seq<BroadcastModel> {
    s.map_values(|b: Broadcast| b@)
}

impl ServedModel {
    /// Whether the session is told of any event.
    pub open spec fn follows_events(self) -> bool {
        self.grants(CAPABILITY_NOTIFICATION@) || self.grants(CAPABILITY_WINDOW_TITLE@)
            || self.grants(CAPABILITY_CATALOG@)
    }

    /// How an event goes out: notifications and titles only under their own
    /// capability, everything else with the catalog.
    pub open spec fn broadcast(self, e: EventEnvelope) -> Option<(Seq<char>, bool)> {
        match e.data {
            EventData::NotificationPosted { .. } => if self.grants(CAPABILITY_NOTIFICATION@) {
                Some((NOTIFICATION_POSTED_EVENT@, false))
            } else {
                None
            },
            EventData::WindowTitleChanged { .. } => if self.grants(CAPABILITY_WINDOW_TITLE@) {
                Some((WINDOW_TITLE_CHANGED_EVENT@, false))
            } else {
                None
            },
            _ => if self.grants(CAPABILITY_CATALOG@) {
                Some((CATALOG_EVENT@, true))
            } else {
                None
            },
        }
    }

    /// What goes out of `n` events from a sequence on.
    pub open spec fn broadcasts(self, h: HubModel, first: int, n: nat) -> Seq<BroadcastModel>
        decreases n,
    {
        if n == 0 {
            Seq::empty()
        } else {
            let before = self.broadcasts(h, first, (n - 1) as nat);
            let sequence = first + n - 1;
            let envelope = h.event(sequence);
            match self.broadcast(envelope) {
                Some((event, whole)) => before.push(
                    BroadcastModel::Event { event, sequence, whole, envelope },
                ),
                None => before,
            }
        }
    }

    /// What a look at the events sends.
    pub open spec fn event_outputs(self, h: HubModel) -> Seq<BroadcastModel> {
        let cursor = self.event_cursor as int;
        let n = h.count_after(cursor);
        let lost = if h.lost_after(cursor) && self.grants(CAPABILITY_CATALOG@) {
            seq![BroadcastModel::Resync]
        } else {
            Seq::empty()
        };
        if self.follows_events() {
            lost + self.broadcasts(h, h.pushed - n + 1, n as nat)
        } else {
            Seq::empty()
        }
    }

    /// The session after a look at the events: it is past all of them.
    pub open spec fn after_events(self, h: HubModel) -> ServedModel {
        if h.pushed > self.event_cursor {
            ServedModel { event_cursor: h.pushed as u64, ..self }
        } else {
            self
        }
    }
}

impl FramedSession {
    /// How an event goes out, if it does.
    fn broadcast_name(&self, e: &EventEnvelope) -> (r: Option<(&'static str, bool)>)
        ensures
            match r {
                Some((event, whole)) => self@.broadcast(*e) == Some((event@, whole)),
                None => self@.broadcast(*e) is None,
            },
    {
        match &e.data {
            EventData::NotificationPosted { .. } => {
                if self.has_capability(CAPABILITY_NOTIFICATION) {
                    Some((NOTIFICATION_POSTED_EVENT, false))
                } else {
                    None
                }
            },
            EventData::WindowTitleChanged { .. } => {
                if self.has_capability(CAPABILITY_WINDOW_TITLE) {
                    Some((WINDOW_TITLE_CHANGED_EVENT, false))
                } else {
                    None
                }
            },
            _ => {
                if self.has_capability(CAPABILITY_CATALOG) {
                    Some((CATALOG_EVENT, true))
                } else {
                    None
                }
            },
        }
    }

    /// Looks at the events since the last look.
    pub fn pump_events<'a>(&mut self, hub: &'a EventHub) -> (r: Vec<Broadcast<'a>>)
        requires
            old(self).wf(),
            hub.wf(),
        ensures
            final(self).wf(),
            final(self)@ == old(self)@.after_events(hub@),
            broadcast_views(r@) == old(self)@.event_outputs(hub@),
    {
        let ghost h = hub@;
        let ghost s = self@;
        let mut out: Vec<Broadcast<'a>> = Vec::new();
        assert(broadcast_views(out@) =~= Seq::empty());
        let catalog: bool = self.has_capability(CAPABILITY_CATALOG);
        let follows: bool = catalog || self.has_capability(CAPABILITY_NOTIFICATION)
            || self.has_capability(CAPABILITY_WINDOW_TITLE);
        let current: u64 = hub.current_sequence();
        if !follows {
            if current > self.event_cursor {
                self.event_cursor = current;
            }
            return out;
        }
        let (events, lost) = hub.events_after_with_loss(self.event_cursor);
        if lost && catalog {
            out.push(Broadcast::Resync);
        }
        let ghost head = broadcast_views(out@);
        let ghost n = h.count_after(s.event_cursor as int);
        let ghost first = h.pushed - n + 1;
        proof {
            assert(head =~= if h.lost_after(s.event_cursor as int) && s.grants(
                CAPABILITY_CATALOG@,
            ) {
                seq![BroadcastModel::Resync]
            } else {
                Seq::empty()
            });
            assert(broadcast_views(out@) =~= head + s.broadcasts(h, first, 0));
        }
        let mut i: usize = 0;
        while i < events.len()
            invariant
                *self == *old(self),
                s == self@,
                i <= events@.len(),
                events@.len() == n,
                forall|k: int|
                    0 <= k < n ==> (#[trigger] events@[k]).0 == first + k && *events@[k].1
                        == h.event(first + k),
                broadcast_views(out@) == head + s.broadcasts(h, first, i as nat),
            decreases events@.len() - i,
        {
            let ghost was = out@;
            let sequence: u64 = events[i].0;
            let envelope: &'a EventEnvelope = events[i].1;
            assert(h.event(first + i) == *envelope);
            if let Some((event, whole)) = self.broadcast_name(envelope) {
                out.push(Broadcast::Event { event, sequence, whole, envelope });
                proof {
                    let x = BroadcastModel::Event {
                        event: event@,
                        sequence: sequence as int,
                        whole,
                        envelope: *envelope,
                    };
                    assert(broadcast_views(out@) =~= broadcast_views(was).push(x));
                    assert(s.broadcasts(h, first, (i + 1) as nat) == s.broadcasts(
                        h,
                        first,
                        i as nat,
                    ).push(x));
                    assert(broadcast_views(out@) =~= head + s.broadcasts(
                        h,
                        first,
                        (i + 1) as nat,
                    ));
                }
            }
            i = i + 1;
        }
        if current > self.event_cursor {
            self.event_cursor = current;
        }
        out
    }
}

impl FramedSession {
    /// Looks at the open streams, then at the events. A session that was
    /// overrun ends before its events.
    pub fn pump_session_output<'a>(&mut self, drains: &Vec<(u32, Drain)>, hub: &'a EventHub) -> (r:
        (Pumped, Vec<Broadcast<'a>>))
        requires
            old(self).wf(),
            hub.wf(),
        ensures
            final(self).wf(),
            output_views(r.0.outputs@) == old(self)@.pump_outputs(drains@),
            r.0.end == old(self)@.pump_end(drains@),
            if old(self)@.pump_end(drains@) is Some {
                final(self)@ == old(self)@ && r.1@.len() == 0
            } else {
                final(self)@ == old(self)@.after_pump(drains@).after_events(hub@)
                    && broadcast_views(r.1@) == old(self)@.after_pump(drains@).event_outputs(hub@)
            },
    {
        let pumped = self.pump_streams(drains);
        if pumped.end.is_some() {
            return (pumped, Vec::new());
        }
        let broadcasts = self.pump_events(hub);
        (pumped, broadcasts)
    }
}

/// A resync notice on the wire.
pub open spec fn resync_view() -> JsonView {
    JsonView::Object(
        seq![
            ("event"@, JsonView::Text(CATALOG_RESYNC_EVENT@)),
            (
                "data"@,
                JsonView::Object(seq![("reason"@, JsonView::Text("event_overflow"@))]),
            ),
        ],
    )
}

/// Builds a resync notice.
pub fn resync_payload() -> (r: Json)
    ensures
        r@ == resync_view(),
{
    object2(
        "event",
        Json::from_text(CATALOG_RESYNC_EVENT),
        "data",
        object1("reason", Json::from_text("event_overflow")),
    )
}

/// Builds an event notice of what the event holds on the wire.
pub fn event_payload(event: &str, sequence: u64, data: Json) -> (r: Json)
    ensures
        r@ == JsonView::Object(
            seq![
                ("event"@, JsonView::Text(event@)),
                ("seq"@, JsonView::Unsigned(sequence)),
                ("data"@, data@),
            ],
        ),
{
    object3("event", Json::from_text(event), "seq", Json::Unsigned(sequence), "data", data)
}

/// A look at the events leaves nothing for another: no event goes out twice.
pub proof fn events_go_out_once(s: ServedModel, h: HubModel)
    requires
        h.wf(),
        h.pushed <= u64::MAX,
    ensures
        s.after_events(h).event_outputs(h) =~= Seq::<BroadcastModel>::empty(),
{
}

/// Notifications and titles never go out as catalog events.
pub proof fn notices_are_no_catalog_events(s: ServedModel, e: EventEnvelope)
    requires
        e.data is NotificationPosted || e.data is WindowTitleChanged,
    ensures
        s.broadcast(e) matches Some((event, whole)) ==> event != CATALOG_EVENT@ && !whole,
{
    reveal_strlit("notification.posted");
    reveal_strlit("window_title.changed");
    reveal_strlit("catalog.event");
    assert(NOTIFICATION_POSTED_EVENT@.len() == 19);
    assert(WINDOW_TITLE_CHANGED_EVENT@.len() == 20);
    assert(CATALOG_EVENT@.len() == 13);
}

/// A stream that goes leaves every other stream as it was.
pub proof fn other_streams_stay(s: ServedModel, drains: Seq<(u32, Drain)>, id: u32)
    requires
        !closed_ids(drains).contains(id),
        !revoked_ids(drains).contains(id),
    ensures
        s.after_pump(drains).streams.contains_key(id) == s.streams.contains_key(id),
        s.streams.contains_key(id) ==> s.after_pump(drains).streams[id] == s.streams[id],
{
    without_keeps(s.streams, closed_ids(drains), id);
    without_keeps(without(s.streams, closed_ids(drains)), revoked_ids(drains), id);
}

proof fn without_keeps(streams: Map<u32, StreamModel>, ids: Seq<u32>, id: u32)
    ensures
        without(streams, ids).contains_key(id) == (streams.contains_key(id) && !ids.contains(id)),
        without(streams, ids).contains_key(id) ==> without(streams, ids)[id] == streams[id],
    decreases ids.len(),
{
    if ids.len() > 0 {
        without_keeps(streams, ids.drop_last(), id);
        if ids.contains(id) && ids.last() != id {
            let k = choose|k: int| 0 <= k < ids.len() && ids[k] == id;
            assert(ids.drop_last()[k] == id);
        }
        if ids.drop_last().contains(id) {
            let k = choose|k: int| 0 <= k < ids.drop_last().len() && ids.drop_last()[k] == id;
            assert(ids[k] == id);
        }
        if ids.last() == id {
            assert(ids[ids.len() - 1] == id);
        }
    }
}

/// A stream whose pane is gone, or whose grant was taken over, is open no
/// longer.
pub proof fn gone_streams_are_dropped(s: ServedModel, drains: Seq<(u32, Drain)>, id: u32)
    requires
        s.pump_end(drains) is None,
        closed_ids(drains).contains(id) || revoked_ids(drains).contains(id),
    ensures
        !s.after_pump(drains).streams.contains_key(id),
{
    without_keeps(s.streams, closed_ids(drains), id);
    without_keeps(without(s.streams, closed_ids(drains)), revoked_ids(drains), id);
}

} // verus!
