//! What a server frame does to its remote's mirror, link and chrome.
use crate::client_state::app_state::{views_insert, views_remove};
use crate::client_state::chrome::{ChromeModel, PromptModel};
use crate::client_state::connection::ConnectionModel;
use crate::client_state::mirror::MirrorModel;
use crate::client_state::remote_start::RemoteStartPrompt;
use crate::client_state::run::state::{ClientLoop, LoopModel};
use crate::client_state::session::{
    next_snapshot_request, Link, LinkModel, Pending, Session, SessionModel,
};
use crate::fleet::status::{announced_line, announced_stop_status_line};
use crate::json::{copy_json, decode_json, json_parsed, Json, JsonView};
use crate::protocol::framed::{
    close_view, control_error, error_of, open_view, opened_of, parse_session_snapshot,
    parse_stream_opened, snapshot_of, stream_close_request, stream_open_request, Frame, FrameType,
    OpenedModel, StreamMode, StreamOpened, CATALOG_EVENT, CATALOG_RESYNC_EVENT,
    NOTIFICATION_POSTED_EVENT, PANE_WRITE_LOCKED_ERROR, SERVER_STOPPING_EVENT,
    SERVER_STOPPING_REASON_REQUESTED, STREAM_CLOSED_EVENT, STREAM_REVOKED_EVENT,
    WINDOW_TITLE_CHANGED_EVENT,
};
use crate::text::same;
use vstd::prelude::*;

verus! {

/// What a frame leaves to be done outside.
#[derive(Debug)]
pub enum FrameEffect {
    Nothing,
    /// Feed the stream's replica its tail.
    ApplyTail { stream_id: u32, payload: Vec<u8> },
    /// Feed the stream's replica a history page.
    ApplyHistory { stream_id: u32, payload: Json },
    /// Decode a catalog event, then apply it.
    DecodeEvent { sequence: u64, data: Json },
    /// Decode a snapshot, then resync from it.
    DecodeSnapshot { sequence: u64, snapshot: Json },
    /// Decode a notification, then deliver it.
    DecodeNotification { data: Json },
    /// Open a replica at that size, then record it.
    OpenReplica {
        pane_id: String,
        mode: StreamMode,
        opened: StreamOpened,
        cols: u16,
        rows: u16,
        focused: bool,
    },
}

/// The mathematical value of an effect.
pub enum EffectModel {
    Nothing,
    ApplyTail { stream_id: u32, payload: Seq<u8> },
    ApplyHistory { stream_id: u32, payload: JsonView },
    DecodeEvent { sequence: u64, data: JsonView },
    DecodeSnapshot { sequence: u64, snapshot: JsonView },
    DecodeNotification { data: JsonView },
    OpenReplica {
        pane_id: Seq<char>,
        mode: StreamMode,
        opened: OpenedModel,
        cols: u16,
        rows: u16,
        focused: bool,
    },
}

impl View for FrameEffect {
    type V = EffectModel;

    open spec fn view(&self) -> EffectModel {
        match *self {
            FrameEffect::Nothing => EffectModel::Nothing,
            FrameEffect::ApplyTail { stream_id, payload } => EffectModel::ApplyTail {
                stream_id,
                payload: payload@,
            },
            FrameEffect::ApplyHistory { stream_id, payload } => EffectModel::ApplyHistory {
                stream_id,
                payload: payload@,
            },
            FrameEffect::DecodeEvent { sequence, data } => EffectModel::DecodeEvent {
                sequence,
                data: data@,
            },
            FrameEffect::DecodeSnapshot { sequence, snapshot } => EffectModel::DecodeSnapshot {
                sequence,
                snapshot: snapshot@,
            },
            FrameEffect::DecodeNotification { data } => EffectModel::DecodeNotification {
                data: data@,
            },
            FrameEffect::OpenReplica { pane_id, mode, opened, cols, rows, focused } =>
                EffectModel::OpenReplica {
                pane_id: pane_id@,
                mode,
                opened: opened@,
                cols,
                rows,
                focused,
            },
        }
    }
}

/// The stream an event names.
pub open spec fn event_stream(v: JsonView) -> Option<u32> {
    match v.field("data"@) {
        Some(d) => match d.unsigned_field("stream_id"@) {
            Some(n) => Some(n as u32),
            None => None,
        },
        None => None,
    }
}

/// The reason an announced stop gives.
pub open spec fn stop_reason(v: JsonView) -> Seq<char> {
    match v.field("data"@) {
        Some(d) => match d.text_field("reason"@) {
            Some(r) => r,
            None => SERVER_STOPPING_REASON_REQUESTED@,
        },
        None => SERVER_STOPPING_REASON_REQUESTED@,
    }
}

/// The title an event carries.
pub open spec fn event_title(v: JsonView) -> Option<Seq<char>> {
    match v.field("data"@) {
        Some(d) => d.text_field("title"@),
        None => None,
    }
}

impl LoopModel {
    /// A snapshot is asked for, where there is a session to ask on.
    pub open spec fn snapshot_asked(self, remote: usize) -> LoopModel {
        match self.session(remote) {
            Some(s) => self.with_session(
                remote,
                s.asked("snapshot"@, Pending::Snapshot, next_snapshot_request(s)),
            ),
            None => self,
        }
    }

    pub open spec fn title_changed(self, remote: usize, title: Option<Seq<char>>) -> LoopModel {
        self.with_chrome(
            ChromeModel {
                window_titles: match title {
                    Some(t) => self.chrome.window_titles.insert(remote, t),
                    None => self.chrome.window_titles.remove(remote),
                },
                ..self.chrome
            },
        )
    }

    /// The stream is gone from the mirror, and the session forgets it.
    pub open spec fn stream_ended(self, remote: usize, stream_id: u32) -> LoopModel {
        let m = self.with_mirror(remote, self.mirrors[remote].closed(stream_id));
        match self.session(remote) {
            Some(s) => m.with_session(remote, s.forgot_stream(stream_id)),
            None => m,
        }
    }
}

/// The start prompt for a remote.
pub open spec fn fresh_prompt(remote: usize, name: Seq<char>, status: Seq<char>) -> PromptModel {
    PromptModel { remote, name, status, error: None, starting: false }
}

impl LoopModel {
    /// The remote's server is stopped: the status line says so, the start
    /// prompt is open, and the link is parked.
    pub open spec fn parked(self, remote: usize, m: MirrorModel, status: Seq<char>) -> LoopModel {
        self.with_mirror(
            remote,
            MirrorModel { connection: ConnectionModel::Stopped { message: status }, ..m },
        ).with_chrome(
            ChromeModel {
                connection_status: Some(status),
                remote_start: Some(fresh_prompt(remote, m.name, status)),
                ..self.chrome
            },
        ).with_link(remote, LinkModel::Stopped)
    }

    /// The server announced its stop: nothing of its session is kept.
    pub open spec fn stop_announced(self, remote: usize, reason: Seq<char>) -> LoopModel {
        let m = self.mirrors[remote];
        self.parked(remote, m.cleared(), announced_line(m.name, reason))
    }
}

/// What an event frame does. Unknown events do nothing.
pub open spec fn event_step(
    was: LoopModel,
    remote: usize,
    event: Seq<char>,
    payload: JsonView,
) -> (LoopModel, EffectModel) {
    if event == CATALOG_EVENT@ {
        (
            was,
            match (payload.unsigned_field("seq"@), payload.field("data"@)) {
                (Some(sequence), Some(data)) => EffectModel::DecodeEvent { sequence, data },
                _ => EffectModel::Nothing,
            },
        )
    } else if event == CATALOG_RESYNC_EVENT@ {
        (was.snapshot_asked(remote), EffectModel::Nothing)
    } else if event == NOTIFICATION_POSTED_EVENT@ {
        (
            was,
            match payload.field("data"@) {
                Some(data) => EffectModel::DecodeNotification { data },
                None => EffectModel::Nothing,
            },
        )
    } else if event == WINDOW_TITLE_CHANGED_EVENT@ {
        (was.title_changed(remote, event_title(payload)), EffectModel::Nothing)
    } else if event == STREAM_CLOSED_EVENT@ || event == STREAM_REVOKED_EVENT@ {
        (
            match event_stream(payload) {
                Some(id) => was.stream_ended(remote, id),
                None => was,
            },
            EffectModel::Nothing,
        )
    } else if event == SERVER_STOPPING_EVENT@ {
        (was.stop_announced(remote, stop_reason(payload)), EffectModel::Nothing)
    } else {
        (was, EffectModel::Nothing)
    }
}

/// Whether the composed focus is on that pane of that remote.
pub open spec fn focus_is_on(m: LoopModel, remote: usize, pane: Seq<char>) -> bool {
    match m.app.focused_pane() {
        Some(id) => m.ids.public_of(id) == Some((remote, pane)),
        None => false,
    }
}

/// The size a replica opens at: the snapshot's, or 80 by 24.
pub open spec fn seed_size(o: OpenedModel) -> (u16, u16) {
    if o.cols > 0 && o.rows > 0 {
        (o.cols, o.rows)
    } else {
        (80, 24)
    }
}

/// What the answer to a `stream.open` does: a pane that vanished meanwhile
/// has its stream closed; a write lock held elsewhere reopens it read-only.
pub open spec fn open_answer(
    was: LoopModel,
    remote: usize,
    s: SessionModel,
    pane_id: String,
    mode: StreamMode,
    payload: JsonView,
) -> (LoopModel, EffectModel) {
    match error_of(payload) {
        Some(e) => if e.code == PANE_WRITE_LOCKED_ERROR@ && mode == StreamMode::Write {
            (
                was.with_session(
                    remote,
                    s.asked(
                        "open"@,
                        Pending::StreamOpen { pane_id, mode: StreamMode::Read },
                        open_view(
                            s.next_id("open"@),
                            pane_id@,
                            StreamMode::Read,
                            false,
                            None,
                            None,
                        ),
                    ),
                ),
                EffectModel::Nothing,
            )
        } else {
            (was.with_session(remote, s), EffectModel::Nothing)
        },
        None => match opened_of(payload) {
            Some(opened) => if !was.mirrors[remote].catalog.has_pane(pane_id@) {
                (
                    was.with_session(
                        remote,
                        s.numbered().sent(close_view(s.next_id("close"@), opened.stream_id)),
                    ),
                    EffectModel::Nothing,
                )
            } else {
                (
                    was.with_session(remote, s),
                    EffectModel::OpenReplica {
                        pane_id: pane_id@,
                        mode,
                        opened,
                        cols: seed_size(opened).0,
                        rows: seed_size(opened).1,
                        focused: focus_is_on(was, remote, pane_id@),
                    },
                )
            },
            None => (was.with_session(remote, s), EffectModel::Nothing),
        },
    }
}

/// What an answer to one of our requests does. The request is settled; a
/// rejected resize is forgotten, so that it is tried again.
pub open spec fn answer_step(
    was: LoopModel,
    remote: usize,
    id: Seq<char>,
    payload: JsonView,
) -> (LoopModel, EffectModel) {
    match was.session(remote) {
        None => (was, EffectModel::Nothing),
        Some(s) => {
            let rest = s.settled(id);
            if !s.pending.contains_key(id) {
                (was.with_session(remote, rest), EffectModel::Nothing)
            } else {
                match s.pending[id] {
                    Pending::Snapshot => (
                        was.with_session(remote, rest),
                        if error_of(payload) is None {
                            match snapshot_of(payload) {
                                Some((snapshot, sequence)) => EffectModel::DecodeSnapshot {
                                    sequence,
                                    snapshot,
                                },
                                None => EffectModel::Nothing,
                            }
                        } else {
                            EffectModel::Nothing
                        },
                    ),
                    Pending::StreamOpen { pane_id, mode } => open_answer(
                        was,
                        remote,
                        rest,
                        pane_id,
                        mode,
                        payload,
                    ),
                    Pending::History { stream_id } => (
                        was.with_session(remote, rest),
                        if was.mirrors[remote].replicas.contains_key(stream_id) {
                            EffectModel::ApplyHistory { stream_id, payload }
                        } else {
                            EffectModel::Nothing
                        },
                    ),
                    Pending::Resize { stream_id } => (
                        was.with_session(
                            remote,
                            if error_of(payload) is Some {
                                SessionModel {
                                    sent_sizes: rest.sent_sizes.remove(stream_id),
                                    ..rest
                                }
                            } else {
                                rest
                            },
                        ),
                        EffectModel::Nothing,
                    ),
                    Pending::Ping => (was.with_session(remote, rest), EffectModel::Nothing),
                    Pending::Api => (was.with_session(remote, rest), EffectModel::Nothing),
                }
            }
        },
    }
}

/// What a control payload does.
pub open spec fn control_step(was: LoopModel, remote: usize, payload: JsonView) -> (
    LoopModel,
    EffectModel,
) {
    if !was.mirrors.contains_key(remote) {
        (was, EffectModel::Nothing)
    } else {
        match payload.text_field("event"@) {
            Some(event) => event_step(was, remote, event, payload),
            None => match payload.text_field("id"@) {
                Some(id) => answer_step(was, remote, id, payload),
                None => (was, EffectModel::Nothing),
            },
        }
    }
}

/// What a frame does: data goes to the stream's replica, control is
/// interpreted, and what does not parse is dropped.
pub open spec fn frame_step(was: LoopModel, remote: usize, frame: Frame) -> (
    LoopModel,
    EffectModel,
) {
    match frame.frame_type {
        FrameType::Data => (
            was,
            if was.mirrors.contains_key(remote) && was.mirrors[remote].replicas.contains_key(
                frame.stream_id,
            ) {
                EffectModel::ApplyTail { stream_id: frame.stream_id, payload: frame.payload@ }
            } else {
                EffectModel::Nothing
            },
        ),
        FrameType::Control => match json_parsed(frame.payload@) {
            Some(payload) => control_step(was, remote, payload),
            None => (was, EffectModel::Nothing),
        },
    }
}

impl ClientLoop {
    /// Drops a stream of a mirror.
    fn close_mirror_stream(&mut self, remote: usize, stream_id: u32)
        requires
            old(self).wf(),
            old(self)@.mirrors.contains_key(remote),
        ensures
            final(self).wf(),
            final(self)@ == old(self)@.with_mirror(
                remote,
                old(self)@.mirrors[remote].closed(stream_id),
            ),
    {
        if let Some(mirror) = self.mirrors.get_mut(remote) {
            mirror.stream_closed(stream_id);
        }
    }

    fn ask_for_snapshot(&mut self, remote: usize)
        requires
            old(self).wf(),
        ensures
            final(self).wf(),
            final(self)@ == old(self)@.snapshot_asked(remote),
    {
        let ghost before = self@;
        if let Some(mut session) = self.take_session(remote) {
            let _ = session.ask_snapshot();
            self.put_session(remote, session);
            assert(self@.links =~= before.snapshot_asked(remote).links);
        }
    }

    fn end_stream(&mut self, remote: usize, stream_id: u32)
        requires
            old(self).wf(),
            old(self)@.mirrors.contains_key(remote),
        ensures
            final(self).wf(),
            final(self)@ == old(self)@.stream_ended(remote, stream_id),
    {
        let ghost before = self@;
        self.close_mirror_stream(remote, stream_id);
        if let Some(mut session) = self.take_session(remote) {
            session.forget_stream(stream_id);
            self.put_session(remote, session);
            assert(self@.links =~= before.stream_ended(remote, stream_id).links);
        }
    }

    fn set_title(&mut self, remote: usize, title: Option<&str>)
        requires
            old(self).wf(),
        ensures
            final(self).wf(),
            final(self)@ == old(self)@.title_changed(
                remote,
                match title {
                    Some(t) => Some(t@),
                    None => None,
                },
            ),
    {
        let ghost before = self.chrome.window_titles@;
        match title {
            Some(t) => {
                let title = t.to_owned();
                proof {
                    views_insert(before, remote, title);
                }
                self.chrome.window_titles.insert(remote, title);
            },
            None => {
                proof {
                    views_remove(before, remote);
                }
                self.chrome.window_titles.remove(&remote);
            },
        }
    }

    /// Parks a remote whose server announced its stop. The link is parked
    /// too, so that the end of the connection that follows does not count as
    /// an outage.
    fn park_stopped(&mut self, remote: usize, reason: &str)
        requires
            old(self).wf(),
            old(self)@.mirrors.contains_key(remote),
        ensures
            final(self).wf(),
            final(self)@ == old(self)@.stop_announced(remote, reason@),
    {
        let ghost before = self@;
        let mut name = String::new();
        let mut status = String::new();
        if let Some(mirror) = self.mirrors.get_mut(remote) {
            name = mirror.name.clone();
            status = announced_stop_status_line(name.as_str(), reason);
            mirror.session_ended();
            mirror.connection.stopped(status.clone());
        }
        self.chrome.connection_status = Some(status.clone());
        self.chrome.remote_start = Some(
            RemoteStartPrompt { remote, name, status, error: None, starting: false },
        );
        self.set_link(remote, Link::Stopped);
        proof {
            let expected = before.stop_announced(remote, reason@);
            assert(self@.mirrors =~= expected.mirrors);
            assert(self@.links =~= expected.links);
        }
    }

    fn handle_event(&mut self, remote: usize, event: &str, payload: &Json) -> (r: FrameEffect)
        requires
            old(self).wf(),
            old(self)@.mirrors.contains_key(remote),
        ensures
            final(self).wf(),
            (final(self)@, r@) == event_step(old(self)@, remote, event@, payload@),
    {
        if same(event, CATALOG_EVENT) {
            return match (payload.unsigned_of("seq"), payload.get("data")) {
                (Some(sequence), Some(data)) => FrameEffect::DecodeEvent {
                    sequence,
                    data: copy_json(data),
                },
                _ => FrameEffect::Nothing,
            };
        }
        if same(event, CATALOG_RESYNC_EVENT) {
            self.ask_for_snapshot(remote);
            return FrameEffect::Nothing;
        }
        if same(event, NOTIFICATION_POSTED_EVENT) {
            return match payload.get("data") {
                Some(data) => FrameEffect::DecodeNotification { data: copy_json(data) },
                None => FrameEffect::Nothing,
            };
        }
        if same(event, WINDOW_TITLE_CHANGED_EVENT) {
            let title = match payload.get("data") {
                Some(data) => data.text_of("title"),
                None => None,
            };
            self.set_title(remote, title);
            return FrameEffect::Nothing;
        }
        if same(event, STREAM_CLOSED_EVENT) || same(event, STREAM_REVOKED_EVENT) {
            if let Some(data) = payload.get("data") {
                if let Some(n) = data.unsigned_of("stream_id") {
                    #[verifier::truncate]
                    let stream_id: u32 = n as u32;
                    self.end_stream(remote, stream_id);
                }
            }
            return FrameEffect::Nothing;
        }
        if same(event, SERVER_STOPPING_EVENT) {
            let reason = match payload.get("data") {
                Some(data) => match data.text_of("reason") {
                    Some(reason) => reason,
                    None => SERVER_STOPPING_REASON_REQUESTED,
                },
                None => SERVER_STOPPING_REASON_REQUESTED,
            };
            self.park_stopped(remote, reason);
            return FrameEffect::Nothing;
        }
        FrameEffect::Nothing
    }

    /// Whether the composed focus is on that pane of that remote.
    fn focus_on(&self, remote: usize, pane: &str) -> (r: bool)
        ensures
            r == focus_is_on(self@, remote, pane@),
    {
        match self.app.focused_pane_id() {
            Some(id) => match self.ids.public_pane_id(id) {
                Some((owner, public)) => owner == remote && same(public, pane),
                None => false,
            },
            None => false,
        }
    }

    fn has_catalog_pane(&self, remote: usize, pane: &str) -> (r: bool)
        requires
            self.wf(),
            self@.mirrors.contains_key(remote),
        ensures
            r == self@.mirrors[remote].catalog.has_pane(pane@),
    {
        match self.mirrors.get(remote) {
            Some(mirror) => mirror.catalog.pane(pane).is_some(),
            None => false,
        }
    }

    fn has_replica(&self, remote: usize, stream_id: u32) -> (r: bool)
        requires
            self.wf(),
        ensures
            r == (self@.mirrors.contains_key(remote) && self@.mirrors[remote].replicas.contains_key(
                stream_id,
            )),
    {
        match self.mirrors.get(remote) {
            Some(mirror) => mirror.replicas.contains(&stream_id),
            None => false,
        }
    }

    fn handle_open_answer(
        &mut self,
        remote: usize,
        session: Session,
        pane_id: String,
        mode: StreamMode,
        payload: &Json,
        Ghost(was): Ghost<LoopModel>,
    ) -> (r: FrameEffect)
        requires
            old(self).wf(),
            session.wf(),
            old(self)@ == (LoopModel { links: was.links.remove(remote), ..was }),
            was.links.contains_key(remote),
            was.mirrors.contains_key(remote),
        ensures
            final(self).wf(),
            (final(self)@, r@) == open_answer(was, remote, session@, pane_id, mode, payload@),
    {
        let ghost s = session@;
        let mut session = session;
        let mut effect = FrameEffect::Nothing;
        match parse_stream_opened(payload) {
            Ok(opened) => {
                if !self.has_catalog_pane(remote, pane_id.as_str()) {
                    let id = session.request_id("close");
                    let request = stream_close_request(id.as_str(), opened.stream_id);
                    let _ = session.send_control(request);
                } else {
                    let (cols, rows): (u16, u16) = if opened.cols > 0 && opened.rows > 0 {
                        (opened.cols, opened.rows)
                    } else {
                        (80, 24)
                    };
                    let focused: bool = self.focus_on(remote, pane_id.as_str());
                    effect =
                    FrameEffect::OpenReplica { pane_id, mode, opened, cols, rows, focused };
                }
            },
            Err(Some(error)) => {
                if same(error.code.as_str(), PANE_WRITE_LOCKED_ERROR) && mode == StreamMode::Write {
                    let id = session.request_id("open");
                    let request = stream_open_request(
                        id.as_str(),
                        pane_id.as_str(),
                        StreamMode::Read,
                        false,
                        None,
                        None,
                    );
                    let copy = id.clone();
                    session.expect(copy, Pending::StreamOpen { pane_id, mode: StreamMode::Read });
                    if session.send_control(request).is_err() {
                        session.settle(id.as_str());
                        assert(session@.pending =~= s.numbered().settled(id@).pending);
                    }
                }
            },
            Err(None) => {},
        }
        self.put_session(remote, session);
        assert(self@.links =~= was.with_session(remote, session@).links);
        effect
    }

    fn handle_answer(&mut self, remote: usize, id: &str, payload: &Json) -> (r: FrameEffect)
        requires
            old(self).wf(),
            old(self)@.mirrors.contains_key(remote),
        ensures
            final(self).wf(),
            (final(self)@, r@) == answer_step(old(self)@, remote, id@, payload@),
    {
        let ghost was = self@;
        let mut session = match self.take_session(remote) {
            Some(session) => session,
            None => {
                return FrameEffect::Nothing;
            },
        };
        let mut effect = FrameEffect::Nothing;
        match session.settle(id) {
            Some(Pending::Snapshot) => {
                if let Some((snapshot, sequence)) = parse_session_snapshot(payload) {
                    effect =
                    FrameEffect::DecodeSnapshot { sequence, snapshot: copy_json(snapshot) };
                }
            },
            Some(Pending::StreamOpen { pane_id, mode }) => {
                return self.handle_open_answer(
                    remote,
                    session,
                    pane_id,
                    mode,
                    payload,
                    Ghost(was),
                );
            },
            Some(Pending::History { stream_id }) => {
                if self.has_replica(remote, stream_id) {
                    effect =
                    FrameEffect::ApplyHistory { stream_id, payload: copy_json(payload) };
                }
            },
            Some(Pending::Resize { stream_id }) => {
                if control_error(payload).is_some() {
                    session.sent_sizes.remove(&stream_id);
                }
            },
            Some(Pending::Ping) | Some(Pending::Api) | None => {},
        }
        self.put_session(remote, session);
        assert(self@.links =~= was.with_session(remote, session@).links);
        effect
    }

    /// Applies one control payload to its remote's mirror.
    pub fn handle_control(&mut self, remote: usize, payload: &Json) -> (r: FrameEffect)
        requires
            old(self).wf(),
        ensures
            final(self).wf(),
            (final(self)@, r@) == control_step(old(self)@, remote, payload@),
    {
        if self.mirrors.get(remote).is_none() {
            return FrameEffect::Nothing;
        }
        if let Some(event) = payload.text_of("event") {
            return self.handle_event(remote, event, payload);
        }
        if let Some(id) = payload.text_of("id") {
            return self.handle_answer(remote, id, payload);
        }
        FrameEffect::Nothing
    }

    /// Applies one server frame to its remote's mirror.
    pub fn handle_server_frame(&mut self, remote: usize, frame: Frame) -> (r: FrameEffect)
        requires
            old(self).wf(),
        ensures
            final(self).wf(),
            (final(self)@, r@) == frame_step(old(self)@, remote, frame),
    {
        match frame.frame_type {
            FrameType::Data => {
                if self.has_replica(remote, frame.stream_id) {
                    FrameEffect::ApplyTail { stream_id: frame.stream_id, payload: frame.payload }
                } else {
                    FrameEffect::Nothing
                }
            },
            FrameType::Control => match decode_json(frame.payload.as_slice()) {
                Some(payload) => self.handle_control(remote, &payload),
                None => FrameEffect::Nothing,
            },
        }
    }
}

} // verus!
