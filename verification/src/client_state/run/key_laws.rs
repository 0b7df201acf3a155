//! What each key does in each mode, from the key to the state and the
//! message it leaves.
use crate::api::method::MethodModel;
use crate::client_state::app_state::{AppState, Mode};
use crate::client_state::intent::prefix_intent;
use crate::client_state::remote_edit::edited;
use crate::client_state::remote_list::list_answer;
use crate::client_state::run::effects::api_message;
use crate::client_state::run::keys::{
    application_arrow, key_step, page_lines, paste_route, KeyAction,
};
use crate::client_state::run::state::LoopModel;
use crate::input::{KeyCode, KeyEventKind, TerminalKey};
use crate::json::JsonView;
use crate::protocol::framed::api_view;
use crate::protocol::wire_shapes::param;
use vstd::prelude::*;

verus! {

/// No fleet dialog is open.
pub open spec fn undisturbed(m: LoopModel) -> bool {
    m.chrome.remote_start is None && m.chrome.remote_edit is None && m.chrome.remote_list is None
}

/// Two states agree on all but the view.
pub open spec fn only_the_view_differs(was: LoopModel, now: LoopModel) -> bool {
    &&& now.links == was.links
    &&& now.mirrors == was.mirrors
    &&& now.chrome == was.chrome
    &&& now.descriptors == was.descriptors
    &&& now.ids == was.ids
    &&& now.ui == was.ui
}

/// The prefix key opens prefix mode from every base mode, and does nothing
/// else.
pub proof fn the_prefix_key_opens_prefix_mode(
    was: LoopModel,
    now: LoopModel,
    key: TerminalKey,
    copy_chord: bool,
    action: KeyAction,
)
    requires
        key_step(was, now, key, copy_chord, action),
        undisturbed(was),
        key.kind != KeyEventKind::Release,
        was.app.mode == Mode::Terminal || was.app.mode == Mode::Navigate || was.app.mode
            == Mode::Copy,
        was.app.prefix_key.hit_by(key),
    ensures
        now.app.mode == Mode::Prefix,
        now.app == (AppState { mode: now.app.mode, ..was.app }),
        only_the_view_differs(was, now),
        action is Nothing,
{
}

/// In prefix mode every key goes back to terminal mode; `d` detaches, Esc
/// does nothing more, and the binding for it enters copy mode.
pub proof fn prefix_keys_leave_prefix_mode(
    was: LoopModel,
    now: LoopModel,
    key: TerminalKey,
    copy_chord: bool,
    action: KeyAction,
)
    requires
        key_step(was, now, key, copy_chord, action),
        undisturbed(was),
        key.kind != KeyEventKind::Release,
        was.app.mode == Mode::Prefix,
    ensures
        now.app.mode == Mode::Terminal,
        key.code == KeyCode::Char('d') ==> now.app.should_quit && action is Nothing
            && only_the_view_differs(was, now),
        key.code != KeyCode::Char('d') ==> now.app.should_quit == was.app.should_quit,
        key.code == KeyCode::Esc ==> action is Nothing && only_the_view_differs(was, now)
            && now.app == (AppState { mode: Mode::Terminal, ..was.app }),
        key.code != KeyCode::Char('d') && key.code != KeyCode::Esc
            && was.app.keybinds.copy_mode.hit_by(key) ==> action is EnterCopyMode
            && only_the_view_differs(was, now),
        !was.app.keybinds.copy_mode.hit_by(key) || key.code == KeyCode::Esc || key.code
            == KeyCode::Char('d') ==> action is Nothing,
{
    reveal(LoopModel::prefix_ran);
}

/// The sidebar's binding turns the sidebar over, in prefix and in navigate
/// mode.
pub proof fn the_sidebar_binding_turns_the_sidebar(
    was: LoopModel,
    now: LoopModel,
    key: TerminalKey,
    copy_chord: bool,
    action: KeyAction,
)
    requires
        key_step(was, now, key, copy_chord, action),
        undisturbed(was),
        key.kind != KeyEventKind::Release,
        was.app.keybinds.toggle_sidebar.hit_by(key),
        ({
            ||| was.app.mode == Mode::Prefix && key.code != KeyCode::Char('d') && key.code
                != KeyCode::Esc && !was.app.keybinds.copy_mode.hit_by(key)
            ||| was.app.mode == Mode::Navigate && key.code != KeyCode::Char('q')
                && !was.app.prefix_key.hit_by(key) && !was.app.keybinds.focus_pane_left.hit_by(key)
                && !was.app.keybinds.focus_pane_right.hit_by(key)
                && !was.app.keybinds.focus_pane_up.hit_by(key)
                && !was.app.keybinds.focus_pane_down.hit_by(key)
        }),
    ensures
        now.app.sidebar_collapsed == !was.app.sidebar_collapsed,
        only_the_view_differs(was, now),
        action is Nothing,
{
    reveal(LoopModel::prefix_ran);
}

/// A message that carries an API method to a remote, numbered like its
/// carrier.
pub open spec fn carries(v: JsonView, id: Seq<char>, method: MethodModel) -> bool {
    &&& v.field("id"@) == Some(JsonView::Text(id))
    &&& v.field("method"@) == Some(JsonView::Text("api.request"@))
    &&& param(v, "request"@) == Some(method.request(id))
}

/// An API method goes to exactly the remote it is told to: one message that
/// carries it, with its answer expected. Nothing else changes.
pub proof fn told_methods_are_carried(
    m: LoopModel,
    remote: usize,
    method: MethodModel,
    other: usize,
)
    requires
        m.session(remote) is Some,
        other != remote,
    ensures
        ({
            let was = m.session(remote)->Some_0;
            let r = m.told(remote, "api"@, api_message(method));
            &&& r.session(remote) matches Some(now) && {
                &&& now.outbox == was.outbox || (now.outbox.len() == was.outbox.len() + 1
                    && now.outbox.drop_last() == was.outbox && carries(
                    now.outbox.last(),
                    was.next_id("api"@),
                    method,
                ))
                &&& was.writable && was.bound is None && crate::json::json_bytes(
                    api_view(was.next_id("api"@), method.request(was.next_id("api"@))),
                ).len() <= crate::protocol::frame::MAX_FRAME_PAYLOAD ==> now.outbox.len()
                    == was.outbox.len() + 1
                &&& now.pending.contains_key(was.next_id("api"@))
                &&& now.pending[was.next_id("api"@)] is Api
                &&& now.sent_sizes == was.sent_sizes
            }
            &&& r.session(other) == m.session(other)
            &&& r.mirrors == m.mirrors && r.app == m.app && r.chrome == m.chrome && r.ui == m.ui
        }),
{
    let s = m.session(remote)->Some_0;
    let id = s.next_id("api"@);
    crate::protocol::wire_shapes::api_requests_carry_the_request(id, method.request(id));
    assert(s.outbox.push(api_view(id, method.request(id))).drop_last() =~= s.outbox);
}

/// In prefix mode a binding's method is carried to the remote it is for, and
/// the client's focus goes there; without a method nothing is sent.
pub proof fn prefix_bindings_reach_their_remote(
    was: LoopModel,
    now: LoopModel,
    key: TerminalKey,
    copy_chord: bool,
    action: KeyAction,
    remote: usize,
    method: MethodModel,
)
    requires
        key_step(was, now, key, copy_chord, action),
        undisturbed(was),
        key.kind != KeyEventKind::Release,
        was.app.mode == Mode::Prefix,
        key.code != KeyCode::Char('d'),
        key.code != KeyCode::Esc,
        !was.app.keybinds.copy_mode.hit_by(key),
        !was.app.keybinds.toggle_sidebar.hit_by(key),
    ensures
        ({
            let at = AppState { mode: Mode::Terminal, ..was.app };
            let intent = prefix_intent(
                key,
                was.mirrors,
                was.ids,
                at,
                was.chrome.selection.effective_focus(was.descriptors),
            );
            &&& intent is None ==> only_the_view_differs(was, now)
            &&& intent == Some((remote, method)) ==> {
                &&& now.chrome.selection.focused_remote == remote
                &&& now.chrome.selection.hidden == was.chrome.selection.hidden
                &&& now.mirrors == was.mirrors
                &&& match (was.session(remote), now.session(remote)) {
                    (Some(s), Some(t)) => {
                        &&& t.outbox == s.outbox || (t.outbox.drop_last() == s.outbox && carries(
                            t.outbox.last(),
                            s.next_id("api"@),
                            method,
                        ))
                        &&& t.pending.contains_key(s.next_id("api"@))
                    },
                    (None, None) => now.links == was.links,
                    _ => false,
                }
            }
        }),
{
    reveal(LoopModel::prefix_ran);
    let base = was.in_mode(Mode::Terminal);
    if was.session(remote) is Some {
        assert(base.focused_on(remote).session(remote) == was.session(remote));
        told_methods_are_carried(
            base.focused_on(remote),
            remote,
            method,
            if remote == 0 {
                1
            } else {
                0
            },
        );
    }
}

/// In navigate mode `q` ends the client; bindings that move a pane's focus do
/// nothing there.
pub proof fn navigate_keys(
    was: LoopModel,
    now: LoopModel,
    key: TerminalKey,
    copy_chord: bool,
    action: KeyAction,
)
    requires
        key_step(was, now, key, copy_chord, action),
        undisturbed(was),
        key.kind != KeyEventKind::Release,
        was.app.mode == Mode::Navigate,
        !was.app.prefix_key.hit_by(key),
    ensures
        action is Nothing,
        now.app.mode == Mode::Navigate,
        key.code == KeyCode::Char('q') ==> now.app.should_quit && only_the_view_differs(was, now),
        key.code != KeyCode::Char('q') && (was.app.keybinds.focus_pane_left.hit_by(key)
            || was.app.keybinds.focus_pane_right.hit_by(key)
            || was.app.keybinds.focus_pane_up.hit_by(key)
            || was.app.keybinds.focus_pane_down.hit_by(key)) ==> now == was,
{
    reveal(LoopModel::prefix_ran);
}

/// The focused pane is that remote's, its stream that one, with a replica.
pub open spec fn streams_focus(m: LoopModel, remote: usize, pane: Seq<char>, stream_id: u32) -> bool {
    &&& crate::client_state::intent_laws::on_pane(m.app, m.ids, remote, pane)
    &&& m.mirrors.contains_key(remote)
    &&& m.mirrors[remote].catalog.has_pane(pane)
    &&& m.mirrors[remote].pane_streams.contains_key(pane)
    &&& m.mirrors[remote].pane_streams[pane] == stream_id
    &&& m.mirrors[remote].replicas.contains_key(stream_id)
}

/// In terminal mode a key goes to the pane and changes nothing, but for page
/// keys, which page the focused pane's screen: up for PageUp, down for
/// PageDown, and for the copy chord over a finished selection.
pub proof fn terminal_keys_go_to_the_pane(
    was: LoopModel,
    now: LoopModel,
    key: TerminalKey,
    copy_chord: bool,
    action: KeyAction,
    remote: usize,
    pane: Seq<char>,
    stream_id: u32,
)
    requires
        key_step(was, now, key, copy_chord, action),
        undisturbed(was),
        key.kind != KeyEventKind::Release,
        was.app.mode == Mode::Terminal,
        !was.app.prefix_key.hit_by(key),
    ensures
        now == was,
        streams_focus(was, remote, pane, stream_id) && key.code == KeyCode::PageUp ==> action == (
        KeyAction::Page { remote, stream_id, up: true }),
        streams_focus(was, remote, pane, stream_id) && key.code == KeyCode::PageDown ==> action == (
        KeyAction::Page { remote, stream_id, up: false }),
        key.code != KeyCode::PageUp && key.code != KeyCode::PageDown ==> (action is CopySelection
            <==> copy_chord && was.app.selection_finalized && !was.app.copy_on_select),
        key.code != KeyCode::PageUp && key.code != KeyCode::PageDown && !(action is CopySelection)
            ==> action is Forward,
{
}

/// A release reaches a pane in terminal mode and is dropped everywhere else.
pub proof fn releases_reach_panes_only(
    was: LoopModel,
    now: LoopModel,
    key: TerminalKey,
    copy_chord: bool,
    action: KeyAction,
)
    requires
        key_step(was, now, key, copy_chord, action),
        key.kind == KeyEventKind::Release,
    ensures
        now == was,
        undisturbed(was) && was.app.mode == Mode::Terminal ==> action is Forward,
        !undisturbed(was) || was.app.mode != Mode::Terminal ==> action is Nothing,
{
}

/// The other modes hand their keys to what is open; what has no dialog of its
/// own is left with Esc or `q`, and ignores the rest.
pub proof fn modal_keys_go_to_the_modal(
    was: LoopModel,
    now: LoopModel,
    key: TerminalKey,
    copy_chord: bool,
    action: KeyAction,
)
    requires
        key_step(was, now, key, copy_chord, action),
        undisturbed(was),
        key.kind != KeyEventKind::Release,
    ensures
        was.app.mode == Mode::Copy && !was.app.prefix_key.hit_by(key) ==> now == was && action == (
        KeyAction::CopyMode { pane: was.app.copy_mode_pane }),
        was.app.mode == Mode::RenameWorkspace || was.app.mode == Mode::RenameTab || was.app.mode
            == Mode::RenamePane || was.app.mode == Mode::ConfirmClose || was.app.mode
            == Mode::ContextMenu ==> now == was && action == (KeyAction::Modal {
            fallback: was.chrome.selection.effective_focus(was.descriptors),
        }),
        was.app.mode == Mode::GlobalMenu ==> now == was && action is GlobalMenu,
        was.app.mode == Mode::KeybindHelp ==> now == was && action is KeybindHelp,
        was.app.mode == Mode::Settings || was.app.mode == Mode::Navigator || was.app.mode
            == Mode::Worktree ==> {
            &&& action is Nothing
            &&& only_the_view_differs(was, now)
            &&& key.code == KeyCode::Esc || key.code == KeyCode::Char('q') ==> now.app == (
            AppState { mode: Mode::Navigate, context_menu_open: false, ..was.app })
            &&& key.code != KeyCode::Esc && key.code != KeyCode::Char('q') ==> now.app == was.app
        },
{
}

/// Only bare arrows that were not released go out in the application's form,
/// and only to a pane that asked for it, outside the enhanced protocol.
pub proof fn application_arrows_are_bare(legacy: bool, key: TerminalKey, application_cursor: bool)
    ensures
        application_arrow(legacy, key, application_cursor) <==> {
            &&& legacy && application_cursor
            &&& key.kind == KeyEventKind::Press || key.kind == KeyEventKind::Repeat
            &&& !key.modifiers.shift && !key.modifiers.control && !key.modifiers.alt
                && !key.modifiers.extra
            &&& key.code == KeyCode::Left || key.code == KeyCode::Right || key.code == KeyCode::Up
                || key.code == KeyCode::Down
        },
{
}

/// A page is a screen, never less than a row, and up is the negative way.
pub proof fn pages_are_screens(rows: usize)
    ensures
        page_lines(Some(rows), false) == if rows > 0 {
            rows as int
        } else {
            1
        },
        page_lines(Some(rows), true) == -page_lines(Some(rows), false),
        page_lines(None, false) == 24,
        page_lines(None, true) == -24,
{
}

/// Pasted text goes to a rename or to a pane, and nowhere while a dialog is
/// open.
pub proof fn pastes_go_where_text_is_taken(m: LoopModel)
    ensures
        paste_route(m) is Pane <==> m.chrome.remote_edit is None && m.app.mode == Mode::Terminal,
        paste_route(m) is RenameInput <==> m.chrome.remote_edit is None && (m.app.mode
            == Mode::RenameWorkspace || m.app.mode == Mode::RenameTab || m.app.mode
            == Mode::RenamePane),
{
}

/// Keys in the fleet's dialogs: the start prompt is asked first, then the
/// dialog, then the list. What a key dismisses is closed; what it types is in
/// the dialog; the panes, links and mirrors are not touched by it.
pub proof fn dialog_keys_stay_in_the_dialogs(
    was: LoopModel,
    now: LoopModel,
    key: TerminalKey,
    copy_chord: bool,
    action: KeyAction,
)
    requires
        key_step(was, now, key, copy_chord, action),
        key.kind != KeyEventKind::Release,
    ensures
        was.chrome.remote_start matches Some(p) ==> {
            &&& !key.modifiers.control && (key.code == KeyCode::Esc || key.code == KeyCode::Char('q'))
                ==> now.chrome.remote_start is None && action is Nothing && now.links == was.links
            &&& key.modifiers.control ==> now == was && action is Nothing
            &&& p.starting && key.code == KeyCode::Enter ==> now == was && action is Nothing
            &&& !(key.code == KeyCode::Enter || key.code == KeyCode::Char('y') || key.code
                == KeyCode::Char('Y')) ==> !(action is Start)
        },
        was.chrome.remote_start is None && was.chrome.remote_edit is Some ==> {
            let d = was.chrome.remote_edit->Some_0;
            &&& key.code == KeyCode::Esc ==> now.chrome.remote_edit is None && action is Nothing
            &&& key.code == KeyCode::Tab ==> action is Nothing && now.chrome.remote_edit == Some(
                edited(d, key),
            )
            &&& now.app == was.app && now.links == was.links && now.mirrors == was.mirrors
            &&& !(key.code == KeyCode::Enter) && !(key.code == KeyCode::Char('d')
                && key.modifiers.control) ==> action is Nothing
        },
        was.chrome.remote_start is None && was.chrome.remote_edit is None
            && was.chrome.remote_list is Some && key.code == KeyCode::Esc
            ==> now.chrome.remote_list is None,
{
    if was.chrome.remote_start is None && was.chrome.remote_edit is None
        && was.chrome.remote_list is Some && key.code == KeyCode::Esc {
        let l = was.chrome.remote_list->Some_0;
        assert(list_answer(l, key) is Close);
    }
}

} // verus!
