//! What snapshots, history, modals and the clock do to the state.
use crate::api::method::Method;
use crate::api::schema::{EventData, SessionSnapshot};
use crate::client_state::app_state::{AppState, Mode};
use crate::client_state::fleet_view::{at_index, labeled};
use crate::client_state::intent::unscoped_method;
use crate::client_state::mirror::{MirrorModel, PaneReplica};
use crate::client_state::run::effects::{pasted, BackfillTrigger};
use crate::client_state::run::key_laws::{carries, told_methods_are_carried};
use crate::client_state::run::state::{ClientLoop, LoopModel};
use crate::client_state::run::ticks::{screens_of, settled_mode, FleetOverlay};
use crate::client_state::session::{Pending, SessionModel};
use crate::client_state::compose::scoped;
use crate::json::JsonView;
use crate::protocol::framed::{base64_text, history_view, paste_image_view, StreamMode};
use crate::protocol::wire_shapes::param;
use crate::seqs::first_index_is;
use crate::text::opt_view;
use vstd::prelude::*;

verus! {

/// A snapshot makes the remote's catalog what it says, at its sequence. With
/// nothing stale, nothing is closed; the head's status line is cleared.
pub proof fn snapshots_become_the_catalog(
    m: LoopModel,
    remote: usize,
    snapshot: SessionSnapshot,
    sequence: u64,
    s: SessionModel,
    other: usize,
)
    requires
        m.mirrors.contains_key(remote),
        m.session(remote) == Some(s),
        other != remote,
    ensures
        ({
            let r = m.resynced(remote, snapshot, sequence, Seq::empty());
            let c = r.mirrors[remote].catalog;
            &&& c.sequence == sequence
            &&& c.panes == snapshot.panes@
            &&& c.tabs == snapshot.tabs@
            &&& c.workspaces == snapshot.workspaces@
            &&& c.layouts == snapshot.layouts@
            &&& c.focused_pane_id == opt_view(snapshot.focused_pane_id)
            &&& c.focused_workspace_id == opt_view(snapshot.focused_workspace_id)
            &&& c.focused_tab_id == opt_view(snapshot.focused_tab_id)
            &&& r.session(remote) == Some(s)
            &&& r.mirrors[remote].connection == m.mirrors[remote].connection
            &&& r.mirrors[remote].replicas == m.mirrors[remote].replicas
            &&& r.session(other) == m.session(other)
            &&& m.mirrors.contains_key(other) ==> r.mirrors[other] == m.mirrors[other]
            &&& remote == 0 && m.app.chip_strip_height == 0 ==> r.chrome.connection_status is None
            &&& remote != 0 ==> r.chrome == m.chrome
        }),
{
    reveal_with_fuel(crate::client_state::run::effects::streams_dropped, 2);
}

/// A stale stream of a snapshot is closed at the server and forgotten.
pub proof fn stale_streams_are_closed(
    m: LoopModel,
    remote: usize,
    snapshot: SessionSnapshot,
    sequence: u64,
    s: SessionModel,
    stale: (String, u32),
)
    requires
        m.mirrors.contains_key(remote),
        m.session(remote) == Some(s),
    ensures
        ({
            let r = m.resynced(remote, snapshot, sequence, seq![stale]);
            &&& r.mirrors[remote].catalog.panes == snapshot.panes@
            &&& !r.mirrors[remote].replicas.contains_key(stale.1)
            &&& r.session(remote) matches Some(t) && !t.sent_sizes.contains_key(stale.1)
                && !t.read_only.contains(stale.1) && (t.outbox == s.outbox || (t.outbox.drop_last()
                == s.outbox && t.outbox.last().field("method"@) == Some(
                JsonView::Text("stream.close"@),
            ) && param(t.outbox.last(), "stream_id"@) == Some(JsonView::Unsigned(stale.1 as u64))))
        }),
{
    let catalog = crate::client_state::catalog::CatalogModel::of_snapshot(snapshot, sequence);
    let mirror = MirrorModel { catalog, ..m.mirrors[remote] };
    let none = Seq::<(String, u32)>::empty();
    crate::client_state::run::stream_laws::dropped_streams_are_told(s, mirror, none, stale);
    assert(none.push(stale) =~= seq![stale]);
}

/// Older rows are asked for from the cursor on: a page of 65536 bytes when
/// scrolling or for a focused pane that was opened, up to a mebibyte for a
/// jump to the top, nothing for a pane nobody looks at or without a cursor.
pub proof fn older_rows_are_asked_for(
    m: LoopModel,
    remote: usize,
    stream_id: u32,
    trigger: BackfillTrigger,
    cursor: Option<Seq<char>>,
    s: SessionModel,
)
    requires
        m.mirrors.contains_key(remote),
        m.mirrors[remote].replicas.contains_key(stream_id),
        m.session(remote) == Some(s),
    ensures
        ({
            let r = m.backfilled(remote, stream_id, trigger, cursor);
            let id = s.next_id("history"@);
            let wanted = cursor is Some && trigger != (BackfillTrigger::Attach { focused: false });
            let budget = if trigger is JumpToTop {
                1_048_576u64
            } else {
                65_536u64
            };
            &&& r.mirrors == m.mirrors && r.app == m.app && r.chrome == m.chrome
            &&& r.session(remote) matches Some(t) && {
                &&& !wanted ==> t.outbox == s.outbox && t.pending == s.pending
                &&& wanted ==> {
                    &&& t.pending.contains_key(id) && t.pending[id] == (Pending::History {
                        stream_id,
                    })
                    &&& t.outbox == s.outbox || {
                        &&& t.outbox.drop_last() == s.outbox
                        &&& t.outbox.last().field("id"@) == Some(JsonView::Text(id))
                        &&& t.outbox.last().field("method"@) == Some(
                            JsonView::Text("stream.history"@),
                        )
                        &&& param(t.outbox.last(), "cursor"@) == Some(
                            JsonView::Text(cursor->Some_0),
                        )
                        &&& param(t.outbox.last(), "max_bytes"@) == Some(
                            JsonView::Unsigned(budget),
                        )
                    }
                }
            }
        }),
        !m.mirrors[remote].replicas.contains_key(stream_id) ==> m.backfilled(
            remote,
            stream_id,
            trigger,
            cursor,
        ) == m,
{
    let id = s.next_id("history"@);
    if cursor is Some && trigger.page() is Some {
        let v = history_view(id, cursor->Some_0, trigger.page()->Some_0);
        crate::protocol::wire_shapes::history_requests_name_cursor_and_budget(
            id,
            cursor->Some_0,
            trigger.page()->Some_0,
        );
        assert(s.outbox.push(v).drop_last() =~= s.outbox);
    }
}

/// The methods of a modal are carried one after the other, each in the public
/// ids of the remote it goes to.
pub proof fn modal_methods_are_carried(
    m: LoopModel,
    remote: usize,
    methods: Seq<Method>,
    n: int,
    s: SessionModel,
)
    requires
        0 < n <= methods.len(),
        m.modal_told(remote, methods, n - 1).session(remote) == Some(s),
    ensures
        m.modal_told(remote, methods, n).session(remote) matches Some(t) && (t.outbox == s.outbox
            || t.outbox.drop_last() == s.outbox && carries(
            t.outbox.last(),
            s.next_id("api"@),
            unscoped_method(m.app, m.ids, methods[n - 1]@),
        )),
        m.modal_told(remote, methods, 0) == m,
{
    told_methods_are_carried(
        m.modal_told(remote, methods, n - 1),
        remote,
        unscoped_method(m.app, m.ids, methods[n - 1]@),
        if remote == 0 {
            1
        } else {
            0
        },
    );
}

/// A catalog event changes its own remote's catalog and nothing else.
pub proof fn events_reach_their_remote(
    m: LoopModel,
    remote: usize,
    sequence: u64,
    data: EventData,
    other: usize,
)
    requires
        m.mirrors.contains_key(remote),
        other != remote,
    ensures
        ({
            let r = m.followed(remote, sequence, data);
            let c = m.mirrors[remote].catalog;
            &&& r.mirrors.contains_key(remote)
            &&& sequence > c.sequence ==> r.mirrors[remote].catalog.sequence == sequence
            &&& sequence <= c.sequence ==> r.mirrors[remote].catalog == c
            &&& r.mirrors[remote].catalog == c.after(sequence, data)
            &&& r.mirrors[remote].replicas == m.mirrors[remote].replicas
            &&& r.mirrors[remote].pane_streams == m.mirrors[remote].pane_streams
            &&& r.mirrors[remote].connection == m.mirrors[remote].connection
            &&& r.mirrors.contains_key(other) == m.mirrors.contains_key(other)
            &&& m.mirrors.contains_key(other) ==> r.mirrors[other] == m.mirrors[other]
            &&& r.links == m.links && r.chrome == m.chrome && r.app == m.app && r.ui == m.ui
        }),
{
}

/// An opened stream has its replica and its pane; where it is only read, its
/// size is another client's from then on.
pub proof fn replicas_are_added(
    m: LoopModel,
    remote: usize,
    pane: Seq<char>,
    mode: StreamMode,
    stream_id: u32,
    replica: PaneReplica,
    s: SessionModel,
    other: u32,
)
    requires
        m.session(remote) == Some(s),
        m.mirrors.contains_key(remote),
        other != stream_id,
    ensures
        ({
            let r = m.replicated(remote, pane, mode, stream_id, replica);
            &&& r.mirrors[remote].pane_streams.contains_key(pane)
            &&& r.mirrors[remote].pane_streams[pane] == stream_id
            &&& r.mirrors[remote].replicas.contains_key(stream_id)
            &&& r.mirrors[remote].replicas[stream_id] == replica
            &&& r.mirrors[remote].catalog == m.mirrors[remote].catalog
            &&& r.session(remote) matches Some(t) && {
                &&& mode == StreamMode::Read ==> t.read_only.contains(stream_id)
                &&& mode == StreamMode::Write ==> (t.read_only.contains(stream_id)
                    <==> s.read_only.contains(stream_id))
                &&& t.read_only.contains(other) <==> s.read_only.contains(other)
                &&& t.outbox == s.outbox && t.pending == s.pending && t.sent_sizes == s.sent_sizes
            }
        }),
{
}

/// A pasted image goes out in one message that names the pane and the kind of
/// file, with its answer expected.
pub proof fn images_are_sent(
    m: LoopModel,
    remote: usize,
    pane: Seq<char>,
    extension: Seq<char>,
    bytes: Seq<u8>,
    s: SessionModel,
)
    requires
        m.session(remote) == Some(s),
    ensures
        ({
            let r = m.image_sent(remote, pane, extension, bytes);
            let id = s.next_id("paste-image"@);
            &&& r.session(remote) matches Some(t) && {
                &&& t.pending.contains_key(id) && t.pending[id] is Api
                &&& t.outbox == s.outbox || {
                    &&& t.outbox.drop_last() == s.outbox
                    &&& t.outbox.last().field("id"@) == Some(JsonView::Text(id))
                    &&& t.outbox.last().field("method"@) == Some(JsonView::Text("pane.paste_image"@))
                    &&& param(t.outbox.last(), "pane_id"@) == Some(JsonView::Text(pane))
                    &&& param(t.outbox.last(), "extension"@) == Some(JsonView::Text(extension))
                    &&& param(t.outbox.last(), "data_base64"@) == Some(
                        JsonView::Text(base64_text(bytes)),
                    )
                }
            }
            &&& r.mirrors == m.mirrors && r.app == m.app && r.chrome == m.chrome
        }),
{
    let id = s.next_id("paste-image"@);
    crate::protocol::wire_shapes::images_name_pane_and_kind(id, pane, extension, bytes);
    assert(s.outbox.push(paste_image_view(id, pane, extension, bytes)).drop_last() =~= s.outbox);
}

/// Notifications name their remote as soon as there is more than one, in
/// brackets before the message; a remote that is not configured is called
/// just that.
pub proof fn notifications_name_their_remote(
    m: LoopModel,
    remote: usize,
    at: int,
    message: Seq<char>,
)
    requires
        0 <= at < m.descriptors.len(),
        m.descriptors[at].index == remote,
        forall|j: int| 0 <= j < at ==> (#[trigger] m.descriptors[j]).index != remote,
    ensures
        m.descriptors.len() > 1 ==> labeled(m.notifier(remote), m.descriptors.len(), message)
            == "["@ + m.descriptors[at].name@ + "] "@ + message,
        m.descriptors.len() == 1 ==> labeled(m.notifier(remote), m.descriptors.len(), message)
            == message,
{
    first_index_is(m.descriptors, at_index(remote), at);
}

/// Pasted text is sent as it is, between `ESC [ 200 ~` and `ESC [ 201 ~` where
/// the pane asked for brackets.
pub proof fn pastes_are_bracketed(text: Seq<u8>)
    ensures
        pasted(text, false) == text,
        pasted(text, true).len() == text.len() + 12,
        pasted(text, true).subrange(6, (text.len() + 6) as int) == text,
        pasted(text, true).take(6) == seq![0x1bu8, 0x5b, 0x32, 0x30, 0x30, 0x7e],
        pasted(text, true).skip((text.len() + 6) as int) == seq![0x1bu8, 0x5b, 0x32, 0x30, 0x31, 0x7e],
{
    let p = pasted(text, true);
    assert(p.subrange(6, (text.len() + 6) as int) =~= text);
    assert(p.take(6) =~= seq![0x1bu8, 0x5b, 0x32, 0x30, 0x30, 0x7e]);
    assert(p.skip((text.len() + 6) as int) =~= seq![0x1bu8, 0x5b, 0x32, 0x30, 0x31, 0x7e]);
}

/// A flash is shown for two and a half seconds; the spinner steps every 120
/// milliseconds while a remote connects, by eight ticks, and rests otherwise.
pub proof fn the_clock_moves_flash_and_spinner(m: LoopModel, now: u64, text: Seq<char>, at: u64)
    requires
        at <= now,
    ensures
        ({
            let r = m.ticked(now);
            let connecting = exists|i: usize| #[trigger]
                m.mirrors.contains_key(i) && m.mirrors[i].connection is Connecting;
            let due = connecting && (m.ui.last_spinner_step is None || (m.ui.last_spinner_step
                == Some(at) && now - at >= 120));
            &&& m.ui.status_flash == Some((text, at)) && now - at <= 2_500
                ==> r.ui.status_flash == Some((text, at))
            &&& m.ui.status_flash == Some((text, at)) && now - at > 2_500
                ==> r.ui.status_flash is None
            &&& m.ui.status_flash is None ==> r.ui.status_flash is None
            &&& m.ui.last_spinner_step is None || m.ui.last_spinner_step == Some(at) ==> {
                &&& due ==> r.ui.last_spinner_step == Some(now) && (m.app.spinner_tick < u32::MAX
                    - 8 ==> r.app.spinner_tick == m.app.spinner_tick + 8)
                &&& !due ==> r.app == m.app
                &&& !due && connecting ==> r.ui.last_spinner_step == m.ui.last_spinner_step
                &&& !connecting ==> r.ui.last_spinner_step is None
            }
            &&& r.links == m.links && r.mirrors == m.mirrors && r.chrome == m.chrome
            &&& r.ui.last_chip_click == m.ui.last_chip_click
        }),
{
}

/// The title shown is the focused remote's own, and none where it has none.
pub proof fn the_focused_remote_titles_the_window(m: LoopModel)
    ensures
        ({
            let focus = m.chrome.selection.effective_focus(m.descriptors);
            &&& m.chrome.window_titles.contains_key(focus) ==> m.wanted_title() == Some(
                m.chrome.window_titles[focus],
            )
            &&& !m.chrome.window_titles.contains_key(focus) ==> m.wanted_title() is None
        }),
{
}

/// Without a focus there is nothing to type into, with one there is nothing
/// to navigate; every other mode stays.
pub proof fn modes_follow_the_focus(mode: Mode)
    ensures
        settled_mode(Mode::Terminal, false) == Mode::Navigate,
        settled_mode(Mode::Navigate, true) == Mode::Terminal,
        settled_mode(Mode::Terminal, true) == Mode::Terminal,
        settled_mode(Mode::Navigate, false) == Mode::Navigate,
        mode != Mode::Terminal && mode != Mode::Navigate ==> settled_mode(mode, true) == mode
            && settled_mode(mode, false) == mode,
{
}

/// Copy mode is orphaned exactly where its pane is not known any more, to the
/// ids or to the remote's catalog.
pub proof fn copy_mode_needs_its_pane(m: LoopModel, pane: usize)
    requires
        m.app.copy_mode_pane == Some(pane),
    ensures
        m.copy_mode_orphaned() <==> !(pane < m.ids.slots@.len() && m.ids.slots@[pane as int].live
            && m.mirrors.contains_key(m.ids.slots@[pane as int].remote)
            && m.mirrors[m.ids.slots@[pane as int].remote].catalog.has_pane(
            m.ids.slots@[pane as int].public@,
        )),
        (LoopModel { app: (AppState { copy_mode_pane: None, ..m.app }), ..m }).copy_mode_orphaned()
            == false,
{
}

/// Of the fleet's dialogs the start prompt is on top, then the dialog, then
/// the list.
pub proof fn the_topmost_dialog_is_drawn(m: LoopModel)
    ensures
        m.chrome.remote_start is Some ==> m.overlay() == Some(FleetOverlay::StartPrompt),
        m.chrome.remote_start is None && m.chrome.remote_edit is Some ==> m.overlay() == Some(
            FleetOverlay::EditDialog,
        ),
        m.chrome.remote_start is None && m.chrome.remote_edit is None && m.chrome.remote_list is Some
            ==> m.overlay() == Some(FleetOverlay::RemoteList),
        m.chrome.remote_start is None && m.chrome.remote_edit is None && m.chrome.remote_list is None
            ==> m.overlay() is None,
{
}

/// The screen of a terminal is the replica of the stream on its pane, on its
/// own remote.
pub proof fn screens_come_from_their_stream(
    base: Map<Seq<char>, (usize, u32)>,
    m: MirrorModel,
    streams: Seq<(String, u32)>,
    last: (String, u32),
)
    requires
        m.catalog.pane(last.0@) is Some,
    ensures
        ({
            let key = scoped(
                m.remote_index,
                m.catalog.pane(last.0@)->Some_0.terminal_id@,
            );
            let r = screens_of(base, m, streams.push(last));
            &&& m.replicas.contains_key(last.1) ==> r.contains_key(key) && r[key] == (
                m.remote_index,
                last.1,
            )
            &&& !m.replicas.contains_key(last.1) ==> r == screens_of(base, m, streams)
        }),
        screens_of(base, m, Seq::empty()) == base,
{
    assert(streams.push(last).drop_last() =~= streams);
}

/// An image is pasted where an empty paste meets the focused pane of a remote
/// that takes images; text never is.
pub proof fn images_are_pasted_into_the_focus(
    l: ClientLoop,
    text: Seq<char>,
    remote: usize,
    pane: Seq<char>,
)
    requires
        crate::client_state::intent_laws::on_pane(l@.app, l@.ids, remote, pane),
        l@.mirrors.contains_key(remote),
        l@.mirrors[remote].catalog.has_pane(pane),
    ensures
        text.len() > 0 ==> l.image_paste_target(text) is None,
        text.len() == 0 && l@.mirrors[remote].connection.grants("paste-image"@)
            ==> l.image_paste_target(text) == Some((remote, pane)),
        !l@.mirrors[remote].connection.grants("paste-image"@) ==> l.image_paste_target(text) is None,
{
}

} // verus!
