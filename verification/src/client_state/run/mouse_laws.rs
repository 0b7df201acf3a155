//! What each mouse event does, from the cell and the button to the message.
use crate::api::method::MethodModel;
use crate::client_state::app_state::{AppState, Mode, PaneArea};
use crate::client_state::chrome::PaneClick;
use crate::client_state::connection::ConnectionModel;
use crate::client_state::fleet_view::at_index;
use crate::client_state::intent::{mouse_intent, MouseAction};
use crate::client_state::run::effects::api_message;
use crate::client_state::run::key_laws::{carries, told_methods_are_carried, undisturbed};
use crate::client_state::run::mouse::{mouse_step, MouseHits, MouseStep, PaneReport};
use crate::client_state::run::state::LoopModel;
use crate::client_state::session::SessionModel;
use crate::input::{MouseButton, MouseEvent, MouseEventKind};
use crate::json::JsonView;
use crate::protocol::framed::{base64_text, send_bytes_view};
use crate::protocol::wire_shapes::param;
use crate::seqs::first_index_is;
use vstd::prelude::*;

verus! {

/// The cell lies in the pane shown at that place of the view, and in none
/// before it.
pub open spec fn over_pane(app: AppState, column: u16, row: u16, at: int) -> bool {
    let inside = |a: PaneArea|
        a.inner.x <= column && column < a.inner.x + a.inner.width && a.inner.y <= row && row
            < a.inner.y + a.inner.height;
    &&& 0 <= at < app.pane_areas@.len()
    &&& inside(app.pane_areas@[at])
    &&& forall|j: int| 0 <= j < at ==> !inside(#[trigger] app.pane_areas@[j])
}

proof fn panes_are_found(app: AppState, column: u16, row: u16, at: int)
    requires
        over_pane(app, column, row, at),
    ensures
        app.pane_over(column, row) == Some(app.pane_areas@[at]),
{
    first_index_is(
        app.pane_areas@,
        crate::client_state::app_state::area_over(column, row),
        at,
    );
}

/// That pane is that remote's, and its stream has a replica.
pub open spec fn streamed(
    m: LoopModel,
    pane: usize,
    remote: usize,
    public: Seq<char>,
    stream_id: u32,
) -> bool {
    &&& pane < m.ids.slots@.len()
    &&& m.ids.slots@[pane as int].live
    &&& m.ids.slots@[pane as int].remote == remote
    &&& m.ids.slots@[pane as int].public@ == public
    &&& m.mirrors.contains_key(remote)
    &&& m.mirrors[remote].pane_streams.contains_key(public)
    &&& m.mirrors[remote].pane_streams[public] == stream_id
    &&& m.mirrors[remote].replicas.contains_key(stream_id)
}

/// The wheel scrolls the pane under it, wherever the focus is: up is back in
/// time and counts as negative, by as many lines as are set.
pub proof fn the_wheel_scrolls_what_is_under_it(
    was: LoopModel,
    now: LoopModel,
    mouse: MouseEvent,
    hits: MouseHits,
    time: u64,
    step: MouseStep,
    at: int,
    remote: usize,
    public: Seq<char>,
    stream_id: u32,
)
    requires
        mouse_step(was, now, mouse, hits, time, step),
        undisturbed(was),
        over_pane(was.app, mouse.column, mouse.row, at),
        streamed(was, was.app.pane_areas@[at].pane, remote, public, stream_id),
        hits.report is Off,
        was.app.mouse_scroll_lines <= i128::MAX,
    ensures
        mouse.kind == MouseEventKind::ScrollUp ==> now == was && step == (MouseStep::Scroll {
            remote,
            stream_id,
            lines: (0 - was.app.mouse_scroll_lines) as i128,
        }),
        mouse.kind == MouseEventKind::ScrollDown ==> now == was && step == (MouseStep::Scroll {
            remote,
            stream_id,
            lines: was.app.mouse_scroll_lines as i128,
        }),
{
    panes_are_found(was.app, mouse.column, mouse.row, at);
}

/// A message of exactly those bytes for that pane.
pub open spec fn types(v: JsonView, pane: Seq<char>, bytes: Seq<u8>) -> bool {
    &&& v.field("method"@) == Some(JsonView::Text("pane.send_bytes"@))
    &&& param(v, "pane_id"@) == Some(JsonView::Text(pane))
    &&& param(v, "data_base64"@) == Some(JsonView::Text(base64_text(bytes)))
}

/// Bytes typed into a pane go out in one message that names it, on the
/// session of its remote alone.
pub proof fn typed_bytes_are_sent(
    m: LoopModel,
    remote: usize,
    pane: Seq<char>,
    bytes: Seq<u8>,
    s: SessionModel,
    other: usize,
)
    requires
        m.session(remote) == Some(s),
        other != remote,
    ensures
        ({
            let r = m.typed_into(remote, pane, bytes);
            &&& r.session(remote) matches Some(t) && (t.outbox == s.outbox || t.outbox.drop_last()
                == s.outbox && types(t.outbox.last(), pane, bytes)) && t.pending == s.pending
            &&& r.session(other) == m.session(other)
            &&& r.mirrors == m.mirrors && r.app == m.app && r.chrome == m.chrome && r.ui == m.ui
        }),
{
    let id = s.next_id("input"@);
    crate::protocol::wire_shapes::pane_bytes_name_their_pane(id, pane, bytes);
    assert(s.outbox.push(send_bytes_view(id, pane, bytes)).drop_last() =~= s.outbox);
}

/// Nothing was added to a queue but those bytes for that pane, at most.
pub open spec fn typed_after(
    queue: Seq<JsonView>,
    out: Seq<JsonView>,
    pane: Seq<char>,
    bytes: Seq<u8>,
) -> bool {
    out == queue || (out.drop_last() == queue && types(out.last(), pane, bytes))
}

/// In terminal mode a button over a pane that takes reports is reported to
/// that pane; a press on a pane that is not focused focuses it first.
pub proof fn buttons_are_reported_to_the_pane_under_them(
    was: LoopModel,
    now: LoopModel,
    mouse: MouseEvent,
    hits: MouseHits,
    time: u64,
    step: MouseStep,
    at: int,
    remote: usize,
    public: Seq<char>,
    stream_id: u32,
    s: SessionModel,
    bytes: Seq<u8>,
)
    requires
        mouse_step(was, now, mouse, hits, time, step),
        undisturbed(was),
        hits.chip is None,
        mouse.kind is Down || mouse.kind is Up || mouse.kind is Drag,
        was.app.mode == Mode::Terminal,
        over_pane(was.app, mouse.column, mouse.row, at),
        streamed(was, was.app.pane_areas@[at].pane, remote, public, stream_id),
        hits.report matches PaneReport::Bytes(b) && b@ == bytes,
        was.session(remote) == Some(s),
    ensures
        step is Nothing,
        now.mirrors == was.mirrors,
        now.app == was.app,
        ({
            let moves = mouse.kind is Down && was.app.focused_pane() != Some(
                was.app.pane_areas@[at].pane,
            );
            let id = s.next_id("api"@);
            &&& now.session(remote) is Some
            &&& !moves ==> (now.session(remote)->Some_0.outbox == s.outbox || (now.session(
                remote,
            )->Some_0.outbox.drop_last() == s.outbox && types(
                now.session(remote)->Some_0.outbox.last(),
                public,
                bytes,
            )))
            &&& moves ==> exists|between: Seq<JsonView>|
                (between == s.outbox || (between.len() > 0 && between.drop_last() == s.outbox
                    && carries(between.last(), id, MethodModel::PaneFocus { pane_id: public })))
                    && #[trigger] typed_after(
                    between,
                    now.session(remote)->Some_0.outbox,
                    public,
                    bytes,
                )
        }),
{
    panes_are_found(was.app, mouse.column, mouse.row, at);
    let other = if remote == 0 {
        1usize
    } else {
        0usize
    };
    let method = MethodModel::PaneFocus { pane_id: public };
    let moves = mouse.kind is Down && was.app.focused_pane() != Some(was.app.pane_areas@[at].pane);
    if moves {
        told_methods_are_carried(was, remote, method, other);
        let m = was.told(remote, "api"@, api_message(method));
        let t = m.session(remote)->Some_0;
        typed_bytes_are_sent(m, remote, public, bytes, t, other);
        let out = now.session(remote)->Some_0.outbox;
        let between = t.outbox;
        assert(typed_after(between, out, public, bytes));
    } else {
        typed_bytes_are_sent(was, remote, public, bytes, s, other);
    }
}

/// A second click on the same cell of the same pane within 350 milliseconds
/// selects the word there; any other plain click is remembered as the first.
pub proof fn double_clicks_select_words(
    was: LoopModel,
    now: LoopModel,
    mouse: MouseEvent,
    hits: MouseHits,
    time: u64,
    step: MouseStep,
    at: int,
    last: PaneClick,
)
    requires
        mouse_step(was, now, mouse, hits, time, step),
        undisturbed(was),
        hits.chip is None,
        hits.report is Off,
        mouse.kind == MouseEventKind::Down(MouseButton::Left),
        !mouse.modifiers.shift && !mouse.modifiers.control && !mouse.modifiers.alt
            && !mouse.modifiers.extra,
        was.app.mode == Mode::Terminal,
        over_pane(was.app, mouse.column, mouse.row, at),
        was.chrome.last_pane_click == Some(last),
        last.at <= time,
    ensures
        ({
            let area = was.app.pane_areas@[at];
            let same = last.pane == area.pane && last.row == mouse.row - area.inner.y && last.col
                == mouse.column - area.inner.x;
            &&& same && time - last.at <= 350 ==> now.chrome.last_pane_click is None && (
            step matches MouseStep::SelectWord(click) && click.pane == area.pane && click.row
                == mouse.row - area.inner.y && click.col == mouse.column - area.inner.x)
            &&& !same || time - last.at > 350 ==> step is Chrome && (
            now.chrome.last_pane_click matches Some(click) && click.pane == area.pane && click.row
                == mouse.row - area.inner.y && click.col == mouse.column - area.inner.x && click.at
                == time)
            &&& now.links == was.links && now.mirrors == was.mirrors && now.app == was.app
        }),
{
    panes_are_found(was.app, mouse.column, mouse.row, at);
}

/// A chip's click hides a remote that is shown and shows one that is hidden.
/// The last one shown stays, and the client says so. A second click within
/// 350 milliseconds leaves the chip's remote alone in view, with the focus.
pub proof fn chips_toggle_and_solo(
    was: LoopModel,
    now: LoopModel,
    mouse: MouseEvent,
    hits: MouseHits,
    time: u64,
    step: MouseStep,
    chip: usize,
    index: usize,
)
    requires
        mouse_step(was, now, mouse, hits, time, step),
        undisturbed(was),
        hits.chip == Some(chip),
        chip < was.descriptors.len(),
        mouse.kind == MouseEventKind::Down(MouseButton::Left),
        !(was.links.contains_key(was.descriptors[chip as int].index)
            && was.links[was.descriptors[chip as int].index] is Stopped),
    ensures
        ({
            let d = was.descriptors[chip as int];
            let hidden = was.chrome.selection.hidden;
            let then = now.chrome.selection.hidden;
            let again = was.ui.last_chip_click matches Some((c, t)) && c == chip && (t > time
                || time - t <= 350);
            &&& step is Nothing
            &&& now.links == was.links && now.mirrors == was.mirrors && now.app == was.app
            &&& again ==> {
                &&& now.chrome.selection.focused_remote == d.index
                &&& !then.contains(d.index)
                &&& index != d.index ==> (then.contains(index) <==> exists|k: int|
                    0 <= k < was.descriptors.len() && (#[trigger] was.descriptors[k]).index
                        == index)
                &&& now.ui.last_chip_click is None
            }
            &&& !again ==> {
                let only = !hidden.contains(d.index) && was.chrome.selection.in_view(
                    was.descriptors,
                ).len() <= 1;
                &&& now.chrome.selection.focused_remote == was.chrome.selection.focused_remote
                &&& now.ui.last_chip_click == Some((chip, time))
                &&& only ==> then == hidden && now.ui.status_flash == Some(
                    ("at least one remote stays in view"@, time),
                )
                &&& !only ==> now.ui.status_flash == was.ui.status_flash && (then.contains(
                    d.index,
                ) <==> !hidden.contains(d.index))
                &&& index != d.index ==> (then.contains(index) <==> hidden.contains(index))
            }
        }),
{
    let s = was.chrome.selection;
    let p = at_index(index);
    if exists|k: int| 0 <= k < was.descriptors.len() && (#[trigger] was.descriptors[k]).index
        == index {
        let k = choose|k: int|
            0 <= k < was.descriptors.len() && (#[trigger] was.descriptors[k]).index == index;
        assert(p(was.descriptors[k]));
    }
    if crate::seqs::any(was.descriptors, p) {
        let k = choose|k: int| 0 <= k < was.descriptors.len() && p(#[trigger] was.descriptors[k]);
        assert(was.descriptors[k].index == index);
    }
}

/// A click on the chip of a remote that is stopped offers its start again,
/// with the line that its mirror shows.
pub proof fn stopped_chips_offer_a_start(
    was: LoopModel,
    now: LoopModel,
    mouse: MouseEvent,
    hits: MouseHits,
    time: u64,
    step: MouseStep,
    chip: usize,
)
    requires
        mouse_step(was, now, mouse, hits, time, step),
        undisturbed(was),
        hits.chip == Some(chip),
        chip < was.descriptors.len(),
        mouse.kind == MouseEventKind::Down(MouseButton::Left),
        ({
            let index = was.descriptors[chip as int].index;
            was.links.contains_key(index) && was.links[index] is Stopped
                && was.mirrors.contains_key(index)
        }),
    ensures
        ({
            let d = was.descriptors[chip as int];
            &&& now.chrome.selection == was.chrome.selection
            &&& now.chrome.remote_start matches Some(p) && p.remote == d.index && p.name == d.name@
                && p.error is None && !p.starting && (was.mirrors[d.index].connection matches
                ConnectionModel::Stopped { message } ==> p.status == message)
            &&& now.links == was.links && now.mirrors == was.mirrors
        }),
{
}

/// Other buttons on a chip, and clicks beside every button of an open dialog,
/// do nothing; the cancelling buttons of the dialogs cancel.
pub proof fn dialogs_are_clicked(
    was: LoopModel,
    now: LoopModel,
    mouse: MouseEvent,
    hits: MouseHits,
    time: u64,
    step: MouseStep,
)
    requires
        mouse_step(was, now, mouse, hits, time, step),
    ensures
        ({
            let left = mouse.kind == MouseEventKind::Down(MouseButton::Left);
            &&& was.chrome.remote_start is Some && !(left && hits.accept) ==> step is Nothing
                && if left && hits.cancel {
                now.chrome.remote_start is None
            } else {
                now == was
            }
            &&& was.chrome.remote_start is None && was.chrome.remote_edit is Some && !(left
                && hits.accept) ==> step is Nothing && if left && hits.cancel {
                now.chrome.remote_edit is None
            } else {
                now == was
            }
            &&& undisturbed(was) && (mouse.kind matches MouseEventKind::Down(b) && b
                != MouseButton::Left) && hits.chip is Some ==> now == was && step is Nothing
        }),
{
}

/// A row of the open list that is clicked is selected, and its error goes.
pub proof fn clicked_rows_are_selected(
    was: LoopModel,
    now: LoopModel,
    mouse: MouseEvent,
    hits: MouseHits,
    time: u64,
    step: MouseStep,
    row: usize,
)
    requires
        mouse_step(was, now, mouse, hits, time, step),
        was.chrome.remote_start is None,
        was.chrome.remote_edit is None,
        was.chrome.remote_list is Some,
        mouse.kind == MouseEventKind::Down(MouseButton::Left),
    ensures
        step is Nothing,
        hits.accept ==> now.chrome.remote_list is None,
        !hits.accept && hits.row == Some(row) ==> (now.chrome.remote_list matches Some(l)
            && l.selected == row && l.error is None && l.rows
            == was.chrome.remote_list->Some_0.rows),
        !hits.accept && hits.row is None ==> now == was,
{
}

/// The method of a click on the chrome is carried to the remote it is for,
/// and the client's focus follows. A mode that the click opened and the
/// client does not have is taken back.
pub proof fn chrome_clicks_reach_their_remote(
    m: LoopModel,
    mode_before: Mode,
    action: MouseAction,
    remote: usize,
    method: MethodModel,
    s: SessionModel,
)
    requires
        m.session(remote) == Some(s),
        m.app.mode != Mode::Settings && m.app.mode != Mode::Navigator && m.app.mode
            != Mode::Worktree,
        mouse_intent(
            action,
            m.mirrors,
            m.ids,
            m.app,
            m.chrome.selection.effective_focus(m.descriptors),
        ) == Some((remote, method)),
    ensures
        ({
            let r = m.mouse_ran(mode_before, Some(action));
            &&& r.chrome.selection.focused_remote == remote
            &&& r.chrome.selection.hidden == m.chrome.selection.hidden
            &&& r.app == (AppState { request_history_backfill_pane: None, ..m.app })
            &&& r.mirrors == m.mirrors
            &&& r.session(remote) matches Some(t) && (t.outbox == s.outbox || t.outbox.drop_last()
                == s.outbox && carries(t.outbox.last(), s.next_id("api"@), method))
        }),
{
    reveal(LoopModel::chrome_ran);
    assert(m.focused_on(remote).session(remote) == Some(s));
    told_methods_are_carried(
        m.focused_on(remote),
        remote,
        method,
        if remote == 0 {
            1
        } else {
            0
        },
    );
}

/// A mode that the client does not have is left for the one before it.
pub proof fn strange_modes_are_taken_back(m: LoopModel, mode_before: Mode)
    ensures
        m.app.mode == Mode::Settings || m.app.mode == Mode::Navigator || m.app.mode
            == Mode::Worktree ==> m.mouse_ran(mode_before, None).app.mode == mode_before
            && !m.mouse_ran(mode_before, None).app.context_menu_open,
        m.app.mode == Mode::Terminal || m.app.mode == Mode::Navigate || m.app.mode
            == Mode::ContextMenu || m.app.mode == Mode::RenameTab ==> m.mouse_ran(
            mode_before,
            None,
        ).app.mode == m.app.mode,
        m.mouse_ran(mode_before, None).links == m.links,
{
    reveal(LoopModel::chrome_ran);
}

/// What is no button, wheel or chip is the chrome's, and changes nothing.
pub proof fn other_events_are_the_chromes(
    was: LoopModel,
    now: LoopModel,
    mouse: MouseEvent,
    hits: MouseHits,
    time: u64,
    step: MouseStep,
)
    requires
        mouse_step(was, now, mouse, hits, time, step),
        undisturbed(was),
        mouse.kind is Moved || mouse.kind is ScrollLeft || mouse.kind is ScrollRight,
    ensures
        now == was,
        step is Chrome,
{
}

/// A drag, a selection that is finished, a modifier or another mode ends the
/// wait for a second click; nothing else of the state changes.
pub proof fn waits_for_a_second_click_end(
    was: LoopModel,
    now: LoopModel,
    mouse: MouseEvent,
    hits: MouseHits,
    time: u64,
    step: MouseStep,
)
    requires
        mouse_step(was, now, mouse, hits, time, step),
        undisturbed(was),
        hits.chip is None,
        hits.report is Off,
        ({
            ||| mouse.kind == MouseEventKind::Drag(MouseButton::Left)
            ||| mouse.kind == MouseEventKind::Up(MouseButton::Left) && was.app.selection_visible
            ||| mouse.kind == MouseEventKind::Down(MouseButton::Left) && (mouse.modifiers.shift
                || mouse.modifiers.control || mouse.modifiers.alt || mouse.modifiers.extra)
            ||| mouse.kind == MouseEventKind::Down(MouseButton::Left) && was.app.mode
                != Mode::Terminal
        }),
    ensures
        now.chrome.last_pane_click is None,
        step is Chrome,
        now.app == was.app && now.links == was.links && now.mirrors == was.mirrors && now.ui
            == was.ui && now.chrome.selection == was.chrome.selection,
{
}

/// The wheel over a pane that takes reports is reported to it, and scrolls
/// nothing here.
pub proof fn wheels_are_reported(
    was: LoopModel,
    now: LoopModel,
    mouse: MouseEvent,
    hits: MouseHits,
    time: u64,
    step: MouseStep,
    at: int,
    remote: usize,
    public: Seq<char>,
    stream_id: u32,
    s: SessionModel,
    bytes: Seq<u8>,
)
    requires
        mouse_step(was, now, mouse, hits, time, step),
        undisturbed(was),
        mouse.kind == MouseEventKind::ScrollUp || mouse.kind == MouseEventKind::ScrollDown,
        over_pane(was.app, mouse.column, mouse.row, at),
        streamed(was, was.app.pane_areas@[at].pane, remote, public, stream_id),
        was.session(remote) == Some(s),
    ensures
        step is Nothing || hits.report is Off,
        hits.report is Unreported ==> now == was,
        (hits.report matches PaneReport::Bytes(b) && b@ == bytes) ==> (now.session(
            remote,
        ) matches Some(t) && typed_after(s.outbox, t.outbox, public, bytes)),
{
    panes_are_found(was.app, mouse.column, mouse.row, at);
    typed_bytes_are_sent(
        was,
        remote,
        public,
        bytes,
        s,
        if remote == 0 {
            1
        } else {
            0
        },
    );
}

} // verus!
