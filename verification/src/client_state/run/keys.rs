//! Where a key goes: an open dialog first, then what the mode makes of it.
use crate::client_state::app_state::{AppState, Mode};
use crate::client_state::chrome::ChromeModel;
use crate::client_state::fleet_view::SelectionModel;
use crate::client_state::intent::{prefix_intent, prefix_intent_method};
use crate::client_state::remote_edit::{
    edit_answer, edited, remote_edit_apply_key, RemoteEditKeyResult,
};
use crate::client_state::remote_list::{
    list_answer, list_moved, remote_list_apply_key, RemoteListKeyResult,
};
use crate::client_state::remote_start::{
    remote_start_apply_key, start_answer, RemoteStartKeyResult,
};
use crate::client_state::run::effects::api_message;
use crate::client_state::run::fleet::{
    list_step, removal_of, start_step, submit_step, ConfigEdit, ListStep, ServerOrder,
};
use crate::client_state::run::state::{ClientLoop, LoopModel};
use crate::input::{KeyCode, KeyEventKind, TerminalKey};
use vstd::prelude::*;

verus! {

/// What a key leaves to be done outside.
#[derive(Debug)]
pub enum KeyAction {
    Nothing,
    /// Start a remote's server.
    Start(ServerOrder),
    /// Write the config for the dialog.
    DialogEdit(ConfigEdit),
    /// What the list asked for.
    List(ListStep),
    /// Encode the key and send it to the focused pane.
    Forward,
    EnterCopyMode,
    /// Scroll a plain screen by a page, or forward the key.
    Page { remote: usize, stream_id: u32, up: bool },
    /// Copy the finished selection, or forward the key where it is empty.
    CopySelection,
    /// A key for copy mode, which is on this pane.
    CopyMode { pane: Option<usize> },
    /// A key for the open modal; its methods go to the selected workspace's
    /// remote, or to this one.
    Modal { fallback: usize },
    GlobalMenu,
    KeybindHelp,
}

pub open spec fn is_page(code: KeyCode) -> bool {
    code == KeyCode::PageUp || code == KeyCode::PageDown
}

impl LoopModel {
    pub open spec fn with_app(self, app: AppState) -> LoopModel {
        LoopModel { app, ..self }
    }

    pub open spec fn in_mode(self, mode: Mode) -> LoopModel {
        LoopModel { app: AppState { mode, ..self.app }, ..self }
    }

    pub open spec fn quitting(self) -> LoopModel {
        LoopModel { app: AppState { should_quit: true, ..self.app }, ..self }
    }

    /// A prefix-mode key is run: the sidebar toggles, or its method goes to
    /// the owning remote and the client's focus follows.
    #[verifier::opaque]
    pub open spec fn prefix_ran(self, key: TerminalKey) -> LoopModel {
        if self.app.keybinds.toggle_sidebar.hit_by(key) {
            self.with_app(
                AppState { sidebar_collapsed: !self.app.sidebar_collapsed, ..self.app },
            )
        } else {
            match prefix_intent(
                key,
                self.mirrors,
                self.ids,
                self.app,
                self.chrome.selection.effective_focus(self.descriptors),
            ) {
                Some((remote, method)) => self.focused_on(remote).told(
                    remote,
                    "api"@,
                    api_message(method),
                ),
                None => self,
            }
        }
    }

    /// The client's focus is on a remote.
    pub open spec fn focused_on(self, remote: usize) -> LoopModel {
        self.with_chrome(
            ChromeModel {
                selection: SelectionModel { focused_remote: remote, ..self.chrome.selection },
                ..self.chrome
            },
        )
    }

    /// The stream with a replica that serves the focused pane.
    pub open spec fn focused_stream(self) -> Option<(usize, u32)> {
        match self.focused_public() {
            Some((remote, public)) => match self.mirrors[remote].stream_for_pane(public) {
                Some(id) => if self.mirrors[remote].replicas.contains_key(id) {
                    Some((remote, id))
                } else {
                    None
                },
                None => None,
            },
            None => None,
        }
    }

    /// The stream that serves a composed pane.
    pub open spec fn stream_of(self, pane: usize) -> Option<(usize, u32)> {
        match self.ids.public_of(pane) {
            Some((remote, public)) => if self.mirrors.contains_key(remote) {
                match self.mirrors[remote].stream_for_pane(public) {
                    Some(id) => Some((remote, id)),
                    None => None,
                }
            } else {
                None
            },
            None => None,
        }
    }
}

/// A key in terminal mode, past the prefix key.
pub open spec fn terminal_key(m: LoopModel, key: TerminalKey, copy_chord: bool) -> KeyAction {
    if is_page(key.code) && m.focused_stream() is Some {
        let (remote, stream_id) = m.focused_stream().unwrap();
        KeyAction::Page { remote, stream_id, up: key.code == KeyCode::PageUp }
    } else if !m.app.copy_on_select && copy_chord && m.app.selection_finalized {
        KeyAction::CopySelection
    } else {
        KeyAction::Forward
    }
}

/// What a press does with no dialog open.
pub open spec fn mode_step(m: LoopModel, key: TerminalKey, copy_chord: bool) -> (
    LoopModel,
    KeyAction,
) {
    match m.app.mode {
        Mode::Prefix => {
            let base = m.in_mode(Mode::Terminal);
            if key.code == KeyCode::Char('d') {
                (base.quitting(), KeyAction::Nothing)
            } else if key.code == KeyCode::Esc {
                (base, KeyAction::Nothing)
            } else if m.app.keybinds.copy_mode.hit_by(key) {
                (base, KeyAction::EnterCopyMode)
            } else {
                (base.prefix_ran(key), KeyAction::Nothing)
            }
        },
        Mode::Terminal => if m.app.prefix_key.hit_by(key) {
            (m.in_mode(Mode::Prefix), KeyAction::Nothing)
        } else {
            (m, terminal_key(m, key, copy_chord))
        },
        Mode::Navigate => if m.app.prefix_key.hit_by(key) {
            (m.in_mode(Mode::Prefix), KeyAction::Nothing)
        } else if key.code == KeyCode::Char('q') {
            (m.quitting(), KeyAction::Nothing)
        } else if m.app.keybinds.is_pane_focus(key) {
            (m, KeyAction::Nothing)
        } else {
            (m.prefix_ran(key), KeyAction::Nothing)
        },
        Mode::Copy => if m.app.prefix_key.hit_by(key) {
            (m.in_mode(Mode::Prefix), KeyAction::Nothing)
        } else {
            (m, KeyAction::CopyMode { pane: m.app.copy_mode_pane })
        },
        Mode::RenameWorkspace
        | Mode::RenameTab
        | Mode::RenamePane
        | Mode::ConfirmClose
        | Mode::ContextMenu => (
            m,
            KeyAction::Modal { fallback: m.chrome.selection.effective_focus(m.descriptors) },
        ),
        Mode::GlobalMenu => (m, KeyAction::GlobalMenu),
        Mode::KeybindHelp => (m, KeyAction::KeybindHelp),
        Mode::Settings | Mode::Navigator | Mode::Worktree => if key.code == KeyCode::Esc
            || key.code == KeyCode::Char('q') {
            (
                m.with_app(
                    AppState { mode: Mode::Navigate, context_menu_open: false, ..m.app },
                ),
                KeyAction::Nothing,
            )
        } else {
            (m, KeyAction::Nothing)
        },
    }
}

/// What a key does. An open start prompt takes every key, then the dialog,
/// then the list. Releases reach a pane in terminal mode only.
pub open spec fn key_step(
    was: LoopModel,
    now: LoopModel,
    key: TerminalKey,
    copy_chord: bool,
    action: KeyAction,
) -> bool {
    let released = key.kind == KeyEventKind::Release;
    match (was.chrome.remote_start, was.chrome.remote_edit, was.chrome.remote_list) {
        (Some(p), _, _) => if released {
            now == was && action is Nothing
        } else {
            match start_answer(p.starting, key) {
                RemoteStartKeyResult::Start => match action {
                    KeyAction::Start(o) => start_step(was, now, Some(o)),
                    _ => action is Nothing && start_step(was, now, None),
                },
                RemoteStartKeyResult::Dismiss => now == was.with_prompt(None) && action is Nothing,
                RemoteStartKeyResult::Ignored => now == was && action is Nothing,
            }
        },
        (None, Some(d), _) => if released {
            now == was && action is Nothing
        } else {
            let typed = was.with_dialog(Some(edited(d, key)));
            match edit_answer(d, key) {
                RemoteEditKeyResult::Submit => match action {
                    KeyAction::DialogEdit(e) => submit_step(typed, now, Some(e)),
                    _ => action is Nothing && submit_step(typed, now, None),
                },
                RemoteEditKeyResult::Remove => now == typed && match action {
                    KeyAction::DialogEdit(e) => removal_of(typed, Some(e)),
                    _ => action is Nothing && removal_of(typed, None),
                },
                RemoteEditKeyResult::Cancel => now == typed.with_dialog(None) && action is Nothing,
                RemoteEditKeyResult::Edited => now == typed && action is Nothing,
            }
        },
        (None, None, Some(l)) => if released {
            now == was && action is Nothing
        } else {
            action matches KeyAction::List(step) && exists|asked: RemoteListKeyResult|
                asked@ == list_answer(l, key) && #[trigger] list_step(
                    was.with_list(Some(list_moved(l, key))),
                    now,
                    asked,
                    step,
                )
        },
        (None, None, None) => if released {
            now == was && action == if was.app.mode == Mode::Terminal {
                KeyAction::Forward
            } else {
                KeyAction::Nothing
            }
        } else {
            (now, action) == mode_step(was, key, copy_chord)
        },
    }
}

impl ClientLoop {
    /// Sets the client's focus to a remote.
    pub fn focus_remote(&mut self, remote: usize)
        requires
            old(self).wf(),
        ensures
            final(self).wf(),
            final(self)@ == old(self)@.focused_on(remote),
    {
        self.chrome.selection.focused_remote = remote;
    }

    /// Runs a prefix-mode key. The sidebar toggle is local; anything else
    /// that has a method is sent to its remote, and the client's focus moves
    /// there. With nothing focused, creation goes to the remote that
    /// effectively holds the focus, which is never one out of view.
    pub fn dispatch_prefix_intent(&mut self, key: TerminalKey)
        requires
            old(self).wf(),
        ensures
            final(self).wf(),
            final(self)@ == old(self)@.prefix_ran(key),
    {
        reveal(LoopModel::prefix_ran);
        if self.app.keybinds.toggle_sidebar.matches_prefix_key(key) {
            self.app.toggle_sidebar();
            return;
        }
        let fallback: usize = self.chrome.selection.effective_focused_remote(
            self.descriptors.as_slice(),
        );
        let intent = prefix_intent_method(key, &self.mirrors, &self.ids, &self.app, fallback);
        if let Some((remote, method)) = intent {
            self.focus_remote(remote);
            self.send_api_request(remote, &method);
        }
    }

    /// The stream with a replica that serves the focused pane.
    pub fn focused_pane_stream(&self) -> (r: Option<(usize, u32)>)
        requires
            self.wf(),
        ensures
            r == self@.focused_stream(),
    {
        match self.focused_public_pane() {
            Some((remote, public)) => match self.mirrors.get(remote) {
                Some(mirror) => match mirror.stream_for_pane(public.as_str()) {
                    Some(id) => {
                        if mirror.replicas.contains(&id) {
                            Some((remote, id))
                        } else {
                            None
                        }
                    },
                    None => None,
                },
                None => None,
            },
            None => None,
        }
    }

    /// The remote and stream that serve a composed pane.
    pub fn stream_for_composed_pane(&self, pane: usize) -> (r: Option<(usize, u32)>)
        requires
            self.wf(),
        ensures
            r == self@.stream_of(pane),
    {
        match self.ids.public_pane_id(pane) {
            Some((remote, public)) => match self.mirrors.get(remote) {
                Some(mirror) => match mirror.stream_for_pane(public) {
                    Some(id) => Some((remote, id)),
                    None => None,
                },
                None => None,
            },
            None => None,
        }
    }

    /// The history that copy mode on a pane asks for after a key: the pane's
    /// stream, and whether it jumps to the top. The request is drained once.
    pub fn copy_mode_backfill(&mut self, pane: Option<usize>) -> (r: (
        Option<(usize, u32)>,
        bool,
    ))
        requires
            old(self).wf(),
        ensures
            final(self).wf(),
            final(self)@ == old(self)@.with_app(
                AppState { request_history_top_backfill: false, ..old(self)@.app },
            ),
            r.1 == old(self)@.app.request_history_top_backfill,
            r.0 == match pane {
                Some(pane) => old(self)@.stream_of(pane),
                None => None,
            },
    {
        let stream: Option<(usize, u32)> = match pane {
            Some(pane) => self.stream_for_composed_pane(pane),
            None => None,
        };
        let top: bool = self.app.take_top_backfill();
        (stream, top)
    }

    fn prefix_key(&mut self, key: TerminalKey) -> (r: KeyAction)
        requires
            old(self).wf(),
            old(self)@.app.mode == Mode::Prefix,
        ensures
            final(self).wf(),
            (final(self)@, r) == mode_step(old(self)@, key, false),
    {
        self.app.set_mode(Mode::Terminal);
        match key.code {
            KeyCode::Char('d') => {
                self.app.quit();
                KeyAction::Nothing
            },
            KeyCode::Esc => KeyAction::Nothing,
            _ => {
                if self.app.keybinds.copy_mode.matches_prefix_key(key) {
                    KeyAction::EnterCopyMode
                } else {
                    self.dispatch_prefix_intent(key);
                    KeyAction::Nothing
                }
            },
        }
    }

    fn navigate_key(&mut self, key: TerminalKey) -> (r: KeyAction)
        requires
            old(self).wf(),
            old(self)@.app.mode == Mode::Navigate,
        ensures
            final(self).wf(),
            (final(self)@, r) == mode_step(old(self)@, key, false),
    {
        if self.app.is_prefix_key(key) {
            self.app.set_mode(Mode::Prefix);
            return KeyAction::Nothing;
        }
        if key.code == KeyCode::Char('q') {
            self.app.quit();
            return KeyAction::Nothing;
        }
        if self.navigate_mode_excludes(key) {
            return KeyAction::Nothing;
        }
        self.dispatch_prefix_intent(key);
        KeyAction::Nothing
    }

    /// The bindings that navigate mode does not run: the arrows steer the
    /// workspace selection there, so directional pane focus needs the prefix.
    pub fn navigate_mode_excludes(&self, key: TerminalKey) -> (r: bool)
        ensures
            r == self@.app.keybinds.is_pane_focus(key),
    {
        self.app.keybinds.focus_pane_left.matches_prefix_key(key)
            || self.app.keybinds.focus_pane_down.matches_prefix_key(key)
            || self.app.keybinds.focus_pane_up.matches_prefix_key(key)
            || self.app.keybinds.focus_pane_right.matches_prefix_key(key)
    }

    fn terminal_action(&self, key: TerminalKey, copy_chord: bool) -> (r: KeyAction)
        requires
            self.wf(),
        ensures
            r == terminal_key(self@, key, copy_chord),
    {
        match key.code {
            KeyCode::PageUp | KeyCode::PageDown => {
                if let Some((remote, stream_id)) = self.focused_pane_stream() {
                    return KeyAction::Page { remote, stream_id, up: key.code == KeyCode::PageUp };
                }
            },
            _ => {},
        }
        if !self.app.copy_on_select && copy_chord && self.app.selection_finalized {
            KeyAction::CopySelection
        } else {
            KeyAction::Forward
        }
    }

    fn base_key(&mut self, key: TerminalKey, copy_chord: bool) -> (r: KeyAction)
        requires
            old(self).wf(),
            old(self)@.app.mode == Mode::Terminal || old(self)@.app.mode == Mode::Copy,
        ensures
            final(self).wf(),
            (final(self)@, r) == mode_step(old(self)@, key, copy_chord),
    {
        if self.app.is_prefix_key(key) {
            self.app.set_mode(Mode::Prefix);
            return KeyAction::Nothing;
        }
        if self.app.mode == Mode::Copy {
            KeyAction::CopyMode { pane: self.app.copy_mode_pane }
        } else {
            self.terminal_action(key, copy_chord)
        }
    }

    fn residual_key(&mut self, key: TerminalKey) -> (r: KeyAction)
        requires
            old(self).wf(),
            old(self)@.app.mode == Mode::Settings || old(self)@.app.mode == Mode::Navigator
                || old(self)@.app.mode == Mode::Worktree,
        ensures
            final(self).wf(),
            (final(self)@, r) == mode_step(old(self)@, key, false),
    {
        match key.code {
            KeyCode::Esc | KeyCode::Char('q') => {
                self.app.fold_modal();
            },
            _ => {},
        }
        KeyAction::Nothing
    }

    fn plain_key(&mut self, key: TerminalKey, copy_chord: bool) -> (r: KeyAction)
        requires
            old(self).wf(),
        ensures
            final(self).wf(),
            (final(self)@, r) == mode_step(old(self)@, key, copy_chord),
    {
        match self.app.mode {
            Mode::Prefix => self.prefix_key(key),
            Mode::Terminal | Mode::Copy => self.base_key(key, copy_chord),
            Mode::Navigate => self.navigate_key(key),
            Mode::RenameWorkspace
            | Mode::RenameTab
            | Mode::RenamePane
            | Mode::ConfirmClose
            | Mode::ContextMenu => KeyAction::Modal {
                fallback: self.chrome.selection.effective_focused_remote(
                    self.descriptors.as_slice(),
                ),
            },
            Mode::GlobalMenu => KeyAction::GlobalMenu,
            Mode::KeybindHelp => KeyAction::KeybindHelp,
            Mode::Settings | Mode::Navigator | Mode::Worktree => self.residual_key(key),
        }
    }

    fn prompt_key(&mut self, key: TerminalKey) -> (r: KeyAction)
        requires
            old(self).wf(),
            old(self)@.chrome.remote_start is Some,
            key.kind != KeyEventKind::Release,
        ensures
            final(self).wf(),
            key_step(old(self)@, final(self)@, key, false, r),
    {
        let answer = match &self.chrome.remote_start {
            Some(prompt) => remote_start_apply_key(prompt, key),
            None => RemoteStartKeyResult::Ignored,
        };
        match answer {
            RemoteStartKeyResult::Start => match self.start_stopped_remote() {
                Some(order) => KeyAction::Start(order),
                None => KeyAction::Nothing,
            },
            RemoteStartKeyResult::Dismiss => {
                self.chrome.remote_start = None;
                KeyAction::Nothing
            },
            RemoteStartKeyResult::Ignored => KeyAction::Nothing,
        }
    }

    fn dialog_key(&mut self, key: TerminalKey) -> (r: KeyAction)
        requires
            old(self).wf(),
            old(self)@.chrome.remote_start is None,
            old(self)@.chrome.remote_edit is Some,
            key.kind != KeyEventKind::Release,
        ensures
            final(self).wf(),
            key_step(old(self)@, final(self)@, key, false, r),
    {
        let answer = match &mut self.chrome.remote_edit {
            Some(dialog) => remote_edit_apply_key(dialog, key),
            None => RemoteEditKeyResult::Edited,
        };
        match answer {
            RemoteEditKeyResult::Submit => match self.submit_remote_edit() {
                Some(edit) => KeyAction::DialogEdit(edit),
                None => KeyAction::Nothing,
            },
            RemoteEditKeyResult::Remove => match self.remove_edited_remote() {
                Some(edit) => KeyAction::DialogEdit(edit),
                None => KeyAction::Nothing,
            },
            RemoteEditKeyResult::Cancel => {
                self.chrome.remote_edit = None;
                KeyAction::Nothing
            },
            RemoteEditKeyResult::Edited => KeyAction::Nothing,
        }
    }

    fn list_key(&mut self, key: TerminalKey) -> (r: KeyAction)
        requires
            old(self).wf(),
            old(self)@.chrome.remote_start is None,
            old(self)@.chrome.remote_edit is None,
            old(self)@.chrome.remote_list is Some,
            key.kind != KeyEventKind::Release,
        ensures
            final(self).wf(),
            key_step(old(self)@, final(self)@, key, false, r),
    {
        let asked = match &mut self.chrome.remote_list {
            Some(list) => remote_list_apply_key(list, key),
            None => RemoteListKeyResult::Ignored,
        };
        KeyAction::List(self.apply_remote_list_action(asked))
    }

    /// Takes one key. `copy_chord` says whether it is the copy chord.
    pub fn handle_key(&mut self, key: TerminalKey, copy_chord: bool) -> (r: KeyAction)
        requires
            old(self).wf(),
        ensures
            final(self).wf(),
            key_step(old(self)@, final(self)@, key, copy_chord, r),
    {
        let released: bool = key.kind == KeyEventKind::Release;
        if self.chrome.remote_start.is_some() {
            if released {
                return KeyAction::Nothing;
            }
            return self.prompt_key(key);
        }
        if self.chrome.remote_edit.is_some() {
            if released {
                return KeyAction::Nothing;
            }
            return self.dialog_key(key);
        }
        if self.chrome.remote_list.is_some() {
            if released {
                return KeyAction::Nothing;
            }
            return self.list_key(key);
        }
        if released {
            if self.app.mode == Mode::Terminal {
                return KeyAction::Forward;
            }
            return KeyAction::Nothing;
        }
        self.plain_key(key, copy_chord)
    }
}

/// Whether an arrow goes out as an application-cursor sequence: outside the
/// enhanced keyboard protocol, a bare arrow on a pane in that mode.
pub open spec fn application_arrow(legacy: bool, key: TerminalKey, application_cursor: bool) -> bool {
    &&& legacy
    &&& application_cursor
    &&& key.kind != KeyEventKind::Release
    &&& key.modifiers.none_held()
    &&& (key.code == KeyCode::Up || key.code == KeyCode::Down || key.code == KeyCode::Left
        || key.code == KeyCode::Right)
}

/// Whether an arrow goes out as an application-cursor sequence.
pub fn uses_application_cursor(legacy: bool, key: TerminalKey, application_cursor: bool) -> (r: bool)
    ensures
        r == application_arrow(legacy, key, application_cursor),
{
    let arrow: bool = match key.code {
        KeyCode::Up | KeyCode::Down | KeyCode::Left | KeyCode::Right => true,
        _ => false,
    };
    legacy && application_cursor && key.kind != KeyEventKind::Release && key.modifiers.is_empty()
        && arrow
}

/// The height of a page where none is known.
pub const DEFAULT_PAGE_ROWS: usize = 24;

/// How far a page key scrolls: a screen of at least one row, up negative.
pub open spec fn page_lines(viewport_rows: Option<usize>, up: bool) -> int {
    let rows = match viewport_rows {
        Some(n) => if n == 0 {
            1
        } else {
            n as int
        },
        None => DEFAULT_PAGE_ROWS as int,
    };
    if up {
        -rows
    } else {
        rows
    }
}

/// How far a page key scrolls.
pub fn page_delta(viewport_rows: Option<usize>, up: bool) -> (r: i128)
    ensures
        r == page_lines(viewport_rows, up),
{
    let rows: usize = match viewport_rows {
        Some(n) => if n == 0 {
            1
        } else {
            n
        },
        None => DEFAULT_PAGE_ROWS,
    };
    if up {
        -(rows as i128)
    } else {
        rows as i128
    }
}

/// Where pasted text goes.
#[derive(Clone, Copy, PartialEq, Eq, Structural, Debug)]
pub enum PasteRoute {
    Nowhere,
    /// Into the name that is being typed.
    RenameInput,
    /// To the focused pane, as an image if it is one.
    Pane,
}

/// Where pasted text goes: an open dialog swallows it, a rename takes it, and
/// a pane gets it in terminal mode only.
pub open spec fn paste_route(m: LoopModel) -> PasteRoute {
    if m.chrome.remote_edit is Some {
        PasteRoute::Nowhere
    } else if m.app.mode == Mode::RenameWorkspace || m.app.mode == Mode::RenameTab || m.app.mode
        == Mode::RenamePane {
        PasteRoute::RenameInput
    } else if m.app.mode == Mode::Terminal {
        PasteRoute::Pane
    } else {
        PasteRoute::Nowhere
    }
}

impl ClientLoop {
    /// Where pasted text goes.
    pub fn route_paste(&self) -> (r: PasteRoute)
        ensures
            r == paste_route(self@),
    {
        if self.chrome.remote_edit.is_some() {
            return PasteRoute::Nowhere;
        }
        match self.app.mode {
            Mode::RenameWorkspace | Mode::RenameTab | Mode::RenamePane => PasteRoute::RenameInput,
            Mode::Terminal => PasteRoute::Pane,
            _ => PasteRoute::Nowhere,
        }
    }
}

/// A key typed into any modal, or released outside terminal mode, never
/// reaches a pane.
pub proof fn modal_keys_never_reach_a_pane(
    was: LoopModel,
    now: LoopModel,
    key: TerminalKey,
    copy_chord: bool,
    action: KeyAction,
)
    requires
        key_step(was, now, key, copy_chord, action),
        was.chrome.remote_start is Some || was.chrome.remote_edit is Some
            || was.chrome.remote_list is Some || was.app.mode != Mode::Terminal,
    ensures
        !(action is Forward),
        !(action is Page),
{
}

/// Only the detach key in prefix mode and `q` in navigate mode end the client.
pub proof fn only_base_modes_quit(
    was: LoopModel,
    now: LoopModel,
    key: TerminalKey,
    copy_chord: bool,
    action: KeyAction,
)
    requires
        key_step(was, now, key, copy_chord, action),
        !was.app.should_quit,
        now.app.should_quit,
    ensures
        (was.app.mode == Mode::Prefix && key.code == KeyCode::Char('d')) || (was.app.mode
            == Mode::Navigate && key.code == KeyCode::Char('q')),
        was.chrome.remote_start is None,
        was.chrome.remote_edit is None,
        was.chrome.remote_list is None,
{
    reveal(LoopModel::prefix_ran);
}

} // verus!
