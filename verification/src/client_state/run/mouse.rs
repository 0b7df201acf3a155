//! Where a mouse event goes: an open dialog first, then the chip strip, then
//! the pane under it, then the rest of the chrome.
use crate::api::method::{Method, MethodModel};
use crate::client_state::app_state::{AppState, Mode};
use crate::client_state::chrome::{ChromeModel, PaneClick};
use crate::client_state::connection::{ClientConnectionState, ConnectionModel};
use crate::client_state::fleet_view::{SelectionModel, VIEW_REFUSAL};
use crate::client_state::intent::{
    click_may_leave, dispatch_mouse_intent, mouse_intent, MouseAction,
};
use crate::client_state::remote_list::ListModel;
use crate::client_state::remote_start::RemoteStartPrompt;
use crate::client_state::run::effects::api_message;
use crate::client_state::run::fleet::{start_step, submit_step, ConfigEdit, ServerOrder};
use crate::client_state::run::frames::fresh_prompt;
use crate::client_state::run::state::{ClientLoop, LoopModel, UiModel};
use crate::client_state::run::ticks::elapsed;
use crate::client_state::session::Link;
use crate::fleet::status::{stopped_line, stopped_status_line};
use crate::input::{MouseButton, MouseEvent, MouseEventKind};
use crate::protocol::framed::send_bytes_view;
use vstd::prelude::*;

verus! {

/// Two clicks closer than this are a double click, in milliseconds.
pub const DOUBLE_CLICK_WINDOW_MS: u64 = 350;

/// Who takes a mouse event.
#[derive(Clone, Copy, PartialEq, Eq, Structural, Debug)]
pub enum MouseRoute {
    StartPrompt,
    EditDialog,
    RemoteList,
    /// The chip at that place of the strip.
    Chip(usize, MouseButton),
    /// The wheel, over whatever pane is there.
    Wheel,
    /// A button or drag: a reporting pane may take it before the chrome.
    PaneButton,
    /// The chrome.
    Chrome,
}

/// Who takes a mouse event. Modals swallow the mouse while open, in the same
/// order as the keyboard.
pub open spec fn mouse_route(m: LoopModel, kind: MouseEventKind, chip: Option<usize>) -> MouseRoute {
    if m.chrome.remote_start is Some {
        MouseRoute::StartPrompt
    } else if m.chrome.remote_edit is Some {
        MouseRoute::EditDialog
    } else if m.chrome.remote_list is Some {
        MouseRoute::RemoteList
    } else {
        match (kind, chip) {
            (MouseEventKind::Down(button), Some(i)) => MouseRoute::Chip(i, button),
            (MouseEventKind::ScrollUp, _) => MouseRoute::Wheel,
            (MouseEventKind::ScrollDown, _) => MouseRoute::Wheel,
            (MouseEventKind::Down(_), _) => MouseRoute::PaneButton,
            (MouseEventKind::Up(_), _) => MouseRoute::PaneButton,
            (MouseEventKind::Drag(_), _) => MouseRoute::PaneButton,
            _ => MouseRoute::Chrome,
        }
    }
}

/// A streamed pane under the mouse, with the cell in the pane's own
/// coordinates.
#[derive(Debug)]
pub struct PaneTarget {
    pub pane: usize,
    pub remote: usize,
    pub pane_id: String,
    pub stream_id: u32,
    pub column: u16,
    pub row: u16,
}

pub open spec fn within(at: u16, from: u16) -> u16 {
    if at >= from {
        (at - from) as u16
    } else {
        0
    }
}

/// The streamed pane under a cell.
pub open spec fn targets(m: LoopModel, column: u16, row: u16, t: PaneTarget) -> bool {
    &&& m.app.pane_over(column, row) matches Some(area) && {
        &&& t.pane == area.pane
        &&& t.column == within(column, area.inner.x)
        &&& t.row == within(row, area.inner.y)
    }
    &&& m.ids.public_of(t.pane) == Some((t.remote, t.pane_id@))
    &&& m.mirrors.contains_key(t.remote)
    &&& m.mirrors[t.remote].stream_for_pane(t.pane_id@) == Some(t.stream_id)
    &&& m.mirrors[t.remote].replicas.contains_key(t.stream_id)
}

/// No streamed pane is under a cell.
pub open spec fn no_target(m: LoopModel, column: u16, row: u16) -> bool {
    match m.app.pane_over(column, row) {
        Some(area) => match m.stream_of(area.pane) {
            Some((remote, id)) => !m.mirrors[remote].replicas.contains_key(id),
            None => true,
        },
        None => true,
    }
}

/// How far the wheel scrolls: up is negative.
pub open spec fn wheel_lines(lines: usize, kind: MouseEventKind) -> int {
    if kind == MouseEventKind::ScrollUp {
        -(lines as int)
    } else {
        lines as int
    }
}

/// How far the wheel scrolls.
pub fn wheel_delta(lines: usize, kind: MouseEventKind) -> (r: i128)
    ensures
        r == wheel_lines(lines, kind),
{
    if kind == MouseEventKind::ScrollUp {
        -(lines as i128)
    } else {
        lines as i128
    }
}

impl LoopModel {
    pub open spec fn with_ui(self, ui: UiModel) -> LoopModel {
        LoopModel { ui, ..self }
    }

    pub open spec fn with_selection(self, selection: SelectionModel) -> LoopModel {
        self.with_chrome(ChromeModel { selection, ..self.chrome })
    }

    pub open spec fn with_pane_click(self, click: Option<PaneClick>) -> LoopModel {
        self.with_chrome(ChromeModel { last_pane_click: click, ..self.chrome })
    }

    /// Bytes are sent to a pane.
    pub open spec fn typed_into(self, remote: usize, pane_id: Seq<char>, bytes: Seq<u8>) -> LoopModel {
        match self.session(remote) {
            Some(s) => self.with_session(
                remote,
                s.numbered().sent(send_bytes_view(s.next_id("input"@), pane_id, bytes)),
            ),
            None => self,
        }
    }

    /// A button report is sent to a pane. A press on a pane that is not
    /// focused focuses it first.
    pub open spec fn reported(
        self,
        kind: MouseEventKind,
        pane: usize,
        remote: usize,
        pane_id: Seq<char>,
        bytes: Seq<u8>,
    ) -> LoopModel {
        let m = if kind is Down && self.app.focused_pane() != Some(pane) {
            self.told(remote, "api"@, api_message(MethodModel::PaneFocus { pane_id }))
        } else {
            self
        };
        m.typed_into(remote, pane_id, bytes)
    }

    /// What a click on the chrome came to: a mode that the client does not
    /// interpret is taken back, and the action's method goes to its remote,
    /// which the client's focus follows. A request for older rows is drained.
    pub open spec fn mouse_ran(self, mode_before: Mode, action: Option<MouseAction>) -> LoopModel {
        let m = self.chrome_ran(mode_before, action);
        m.with_app(AppState { request_history_backfill_pane: None, ..m.app })
    }

    /// What a click on the chrome came to, but for a request for older rows.
    #[verifier::opaque]
    pub open spec fn chrome_ran(self, mode_before: Mode, action: Option<MouseAction>) -> LoopModel {
        let m = if click_may_leave(self.app.mode) {
            self
        } else {
            self.with_app(AppState { mode: mode_before, context_menu_open: false, ..self.app })
        };
        match action {
            Some(a) => match mouse_intent(
                a,
                m.mirrors,
                m.ids,
                m.app,
                m.chrome.selection.effective_focus(m.descriptors),
            ) {
                Some((remote, method)) => m.focused_on(remote).told(
                    remote,
                    "api"@,
                    api_message(method),
                ),
                None => m,
            },
            None => m,
        }
    }

    /// What a click does while the list is open: the button closes, a row is
    /// selected, anything else is swallowed.
    pub open spec fn list_clicked(self, kind: MouseEventKind, done: bool, row: Option<usize>) -> LoopModel {
        if kind != MouseEventKind::Down(MouseButton::Left) {
            self
        } else if done {
            self.with_list(None)
        } else {
            match (row, self.chrome.remote_list) {
                (Some(row), Some(l)) => self.with_list(
                    Some(ListModel { selected: row, error: None, ..l }),
                ),
                _ => self,
            }
        }
    }

    /// Whether a click on a chip follows another on it closely.
    pub open spec fn is_double_chip_click(self, chip: usize, now: u64) -> bool {
        self.ui.last_chip_click matches Some((last, at)) && last == chip && elapsed(now, at)
            <= DOUBLE_CLICK_WINDOW_MS
    }

    /// What a left click on a chip does: a stopped remote is offered its
    /// start again, a double click solos, any other click toggles, and a
    /// refused toggle says why. No link is touched.
    pub open spec fn chip_clicked(self, chip: usize, now: u64) -> LoopModel {
        let d = self.descriptors[chip as int];
        if self.links.contains_key(d.index) && self.links[d.index] is Stopped
            && self.mirrors.contains_key(d.index) {
            self.with_prompt(
                Some(
                    fresh_prompt(
                        d.index,
                        d.name@,
                        match self.mirrors[d.index].connection {
                            ConnectionModel::Stopped { message } => message,
                            _ => stopped_line(d.name@),
                        },
                    ),
                ),
            )
        } else if self.is_double_chip_click(chip, now) {
            self.with_ui(UiModel { last_chip_click: None, ..self.ui }).with_selection(
                self.chrome.selection.soloed(d.index, self.descriptors),
            )
        } else {
            let clicked = self.with_ui(
                UiModel { last_chip_click: Some((chip, now)), ..self.ui },
            );
            if self.chrome.selection.refuses(d.index, self.descriptors) {
                clicked.with_ui(
                    UiModel { status_flash: Some((VIEW_REFUSAL@, now)), ..clicked.ui },
                )
            } else {
                clicked.with_selection(self.chrome.selection.flipped(d.index))
            }
        }
    }
}

impl ClientLoop {
    /// Who takes a mouse event; `chip` is the chip under it.
    pub fn route_mouse(&self, kind: MouseEventKind, chip: Option<usize>) -> (r: MouseRoute)
        ensures
            r == mouse_route(self@, kind, chip),
    {
        if self.chrome.remote_start.is_some() {
            return MouseRoute::StartPrompt;
        }
        if self.chrome.remote_edit.is_some() {
            return MouseRoute::EditDialog;
        }
        if self.chrome.remote_list.is_some() {
            return MouseRoute::RemoteList;
        }
        match kind {
            MouseEventKind::Down(button) => match chip {
                Some(i) => MouseRoute::Chip(i, button),
                None => MouseRoute::PaneButton,
            },
            MouseEventKind::ScrollUp | MouseEventKind::ScrollDown => MouseRoute::Wheel,
            MouseEventKind::Up(_) | MouseEventKind::Drag(_) => MouseRoute::PaneButton,
            _ => MouseRoute::Chrome,
        }
    }

    /// The streamed pane under a cell.
    pub fn pane_target(&self, column: u16, row: u16) -> (r: Option<PaneTarget>)
        requires
            self.wf(),
        ensures
            match r {
                Some(t) => targets(self@, column, row, t),
                None => no_target(self@, column, row),
            },
    {
        let area = match self.app.pane_at(column, row) {
            Some(area) => area,
            None => {
                return None;
            },
        };
        let (remote, stream_id): (usize, u32) = match self.stream_for_composed_pane(area.pane) {
            Some(found) => found,
            None => {
                return None;
            },
        };
        match self.mirrors.get(remote) {
            Some(mirror) => {
                if !mirror.replicas.contains(&stream_id) {
                    return None;
                }
            },
            None => {
                return None;
            },
        }
        match self.ids.public_pane_id(area.pane) {
            Some((_, public)) => Some(
                PaneTarget {
                    pane: area.pane,
                    remote,
                    pane_id: public.to_owned(),
                    stream_id,
                    column: column.saturating_sub(area.inner.x),
                    row: row.saturating_sub(area.inner.y),
                },
            ),
            None => None,
        }
    }

    /// The streamed pane a button event could be reported to: only in
    /// terminal mode.
    pub fn report_target(&self, column: u16, row: u16) -> (r: Option<PaneTarget>)
        requires
            self.wf(),
        ensures
            match r {
                Some(t) => self@.app.mode == Mode::Terminal && targets(self@, column, row, t),
                None => self@.app.mode != Mode::Terminal || no_target(self@, column, row),
            },
    {
        if self.app.mode != Mode::Terminal {
            return None;
        }
        self.pane_target(column, row)
    }

    /// Sends a button report to a pane. A press on a pane that is not focused
    /// focuses it first.
    pub fn forward_reported_mouse_button(
        &mut self,
        kind: MouseEventKind,
        target: &PaneTarget,
        bytes: &[u8],
    )
        requires
            old(self).wf(),
        ensures
            final(self).wf(),
            final(self)@ == old(self)@.reported(
                kind,
                target.pane,
                target.remote,
                target.pane_id@,
                bytes@,
            ),
    {
        let pressed: bool = match kind {
            MouseEventKind::Down(_) => true,
            _ => false,
        };
        if pressed {
            let focused: bool = match self.app.focused_pane_id() {
                Some(pane) => pane == target.pane,
                None => false,
            };
            if !focused {
                let method = Method::PaneFocus { pane_id: target.pane_id.clone() };
                self.send_api_request(target.remote, &method);
            }
        }
        self.send_pane_bytes(target.remote, target.pane_id.as_str(), bytes);
    }

    /// Takes a click on a chip. Only the left button does anything.
    pub fn handle_chip_click(&mut self, chip: usize, button: MouseButton, now: u64)
        requires
            old(self).wf(),
        ensures
            final(self).wf(),
            final(self)@ == if chip < old(self)@.descriptors.len() && button
                == MouseButton::Left {
                old(self)@.chip_clicked(chip, now)
            } else {
                old(self)@
            },
    {
        if chip >= self.descriptors.len() || button != MouseButton::Left {
            return;
        }
        let index: usize = self.descriptors[chip].index;
        let stopped: bool = match self.links.get(&index) {
            Some(Link::Stopped) => true,
            _ => false,
        };
        if stopped {
            let name = self.descriptors[chip].name.clone();
            let status: Option<String> = match self.mirrors.get(index) {
                Some(mirror) => match &mirror.connection {
                    ClientConnectionState::Stopped { message } => Some(message.clone()),
                    _ => Some(stopped_status_line(name.as_str())),
                },
                None => None,
            };
            if let Some(status) = status {
                self.chrome.remote_start = Some(
                    RemoteStartPrompt { remote: index, name, status, error: None, starting: false },
                );
                return;
            }
        }
        let double: bool = match self.ui.last_chip_click {
            Some((last, at)) => last == chip && now.saturating_sub(at) <= DOUBLE_CLICK_WINDOW_MS,
            None => false,
        };
        if double {
            self.ui.last_chip_click = None;
            self.chrome.selection.solo(index, self.descriptors.as_slice());
            return;
        }
        self.ui.last_chip_click = Some((chip, now));
        if let Err(refusal) = self.chrome.selection.toggle(index, self.descriptors.as_slice()) {
            self.ui.status_flash = Some((refusal.to_owned(), now));
        }
    }

    /// Takes a click while the list is open: `[done]` closes, a row selects,
    /// anything else is swallowed.
    pub fn handle_remote_list_click(
        &mut self,
        kind: MouseEventKind,
        done: bool,
        row: Option<usize>,
    )
        requires
            old(self).wf(),
        ensures
            final(self).wf(),
            final(self)@ == old(self)@.list_clicked(kind, done, row),
    {
        if kind != MouseEventKind::Down(MouseButton::Left) {
            return;
        }
        if done {
            self.chrome.remote_list = None;
            return;
        }
        if let Some(row) = row {
            if let Some(list) = &mut self.chrome.remote_list {
                list.select(row);
            }
        }
    }

    /// Takes a click while the start prompt is open.
    pub fn handle_start_prompt_click(&mut self, kind: MouseEventKind, start: bool, cancel: bool) -> (r:
        Option<ServerOrder>)
        requires
            old(self).wf(),
        ensures
            final(self).wf(),
            if kind == MouseEventKind::Down(MouseButton::Left) && start {
                start_step(old(self)@, final(self)@, r)
            } else {
                r is None && final(self)@ == if kind == MouseEventKind::Down(MouseButton::Left)
                    && cancel {
                    old(self)@.with_prompt(None)
                } else {
                    old(self)@
                }
            },
    {
        if kind != MouseEventKind::Down(MouseButton::Left) {
            return None;
        }
        if start {
            return self.start_stopped_remote();
        }
        if cancel {
            self.chrome.remote_start = None;
        }
        None
    }

    /// Takes a click while the dialog is open.
    pub fn handle_dialog_click(&mut self, kind: MouseEventKind, save: bool, cancel: bool) -> (r: Option<
        ConfigEdit,
    >)
        requires
            old(self).wf(),
        ensures
            final(self).wf(),
            if kind == MouseEventKind::Down(MouseButton::Left) && save {
                submit_step(old(self)@, final(self)@, r)
            } else {
                r is None && final(self)@ == if kind == MouseEventKind::Down(MouseButton::Left)
                    && cancel {
                    old(self)@.with_dialog(None)
                } else {
                    old(self)@
                }
            },
    {
        if kind != MouseEventKind::Down(MouseButton::Left) {
            return None;
        }
        if save {
            return self.submit_remote_edit();
        }
        if cancel {
            self.chrome.remote_edit = None;
        }
        None
    }
}

/// Whether a click on a pane cell follows another on the same cell closely.
pub open spec fn is_double_click(last: Option<PaneClick>, click: PaneClick) -> bool {
    last matches Some(l) && l.pane == click.pane && l.row == click.row && l.col == click.col
        && elapsed(click.at, l.at) <= DOUBLE_CLICK_WINDOW_MS
}

/// The pane cell under the mouse, as a click.
pub open spec fn click_at(m: LoopModel, mouse: MouseEvent, now: u64) -> Option<PaneClick> {
    match m.app.pane_over(mouse.column, mouse.row) {
        Some(area) => Some(
            PaneClick {
                pane: area.pane,
                row: within(mouse.row, area.inner.y),
                col: within(mouse.column, area.inner.x),
                at: now,
            },
        ),
        None => None,
    }
}

/// What an event does to the double-click candidate, and the cell whose word
/// it selects. A drag, a finished selection, a modifier, another mode or a
/// click off the panes ends the candidate.
pub open spec fn double_click_step(m: LoopModel, mouse: MouseEvent, now: u64) -> (
    LoopModel,
    Option<PaneClick>,
) {
    match mouse.kind {
        MouseEventKind::Drag(MouseButton::Left) => (m.with_pane_click(None), None),
        MouseEventKind::Up(MouseButton::Left) => (
            if m.app.selection_visible {
                m.with_pane_click(None)
            } else {
                m
            },
            None,
        ),
        MouseEventKind::Down(MouseButton::Left) => if !mouse.modifiers.none_held() || m.app.mode
            != Mode::Terminal {
            (m.with_pane_click(None), None)
        } else {
            match click_at(m, mouse, now) {
                None => (m.with_pane_click(None), None),
                Some(click) => if is_double_click(m.chrome.last_pane_click, click) {
                    (m.with_pane_click(None), Some(click))
                } else {
                    (m.with_pane_click(Some(click)), None)
                },
            }
        },
        _ => (m, None),
    }
}

impl ClientLoop {
    fn pane_click_at(&self, mouse: MouseEvent, now: u64) -> (r: Option<PaneClick>)
        ensures
            r == click_at(self@, mouse, now),
    {
        match self.app.pane_at(mouse.column, mouse.row) {
            Some(area) => Some(
                PaneClick {
                    pane: area.pane,
                    row: mouse.row.saturating_sub(area.inner.y),
                    col: mouse.column.saturating_sub(area.inner.x),
                    at: now,
                },
            ),
            None => None,
        }
    }

    /// Watches for a double click on a pane cell, and gives the cell whose
    /// word it selects.
    pub fn handle_pane_double_click(&mut self, mouse: MouseEvent, now: u64) -> (r: Option<PaneClick>)
        requires
            old(self).wf(),
        ensures
            final(self).wf(),
            (final(self)@, r) == double_click_step(old(self)@, mouse, now),
    {
        match mouse.kind {
            MouseEventKind::Drag(MouseButton::Left) => {
                self.chrome.last_pane_click = None;
                return None;
            },
            MouseEventKind::Up(MouseButton::Left) => {
                if self.app.selection_visible {
                    self.chrome.last_pane_click = None;
                }
                return None;
            },
            MouseEventKind::Down(MouseButton::Left) => {},
            _ => {
                return None;
            },
        }
        let click: Option<PaneClick> = if !mouse.modifiers.is_empty() || self.app.mode
            != Mode::Terminal {
            None
        } else {
            self.pane_click_at(mouse, now)
        };
        let click = match click {
            Some(click) => click,
            None => {
                self.chrome.last_pane_click = None;
                return None;
            },
        };
        let double: bool = match self.chrome.last_pane_click {
            Some(l) => l.pane == click.pane && l.row == click.row && l.col == click.col
                && click.at.saturating_sub(l.at) <= DOUBLE_CLICK_WINDOW_MS,
            None => false,
        };
        if double {
            self.chrome.last_pane_click = None;
            Some(click)
        } else {
            self.chrome.last_pane_click = Some(click);
            None
        }
    }
}

/// What the terminal under the mouse makes of an event.
#[derive(Debug)]
pub enum PaneReport {
    /// It does not ask for mouse reports.
    Off,
    /// It asks for them, but not for this event.
    Unreported,
    /// The report it is sent.
    Bytes(Vec<u8>),
}

/// What a mouse event is over.
#[derive(Debug)]
pub struct MouseHits {
    /// The chip at that place of the strip.
    pub chip: Option<usize>,
    /// The accepting button of the open dialog: start, save or done.
    pub accept: bool,
    /// The cancelling button of the open dialog.
    pub cancel: bool,
    /// The row of the open list.
    pub row: Option<usize>,
    pub report: PaneReport,
}

/// What a mouse event leaves to be done outside.
#[derive(Debug)]
pub enum MouseStep {
    Nothing,
    /// Start a remote's server.
    Start(ServerOrder),
    /// Write the config for the dialog.
    DialogEdit(ConfigEdit),
    /// Scroll a terminal by so many lines, up negative.
    Scroll { remote: usize, stream_id: u32, lines: i128 },
    /// Select the word at a cell, or else let the chrome have the event.
    SelectWord(PaneClick),
    /// Let the chrome have the event.
    Chrome,
}

/// What a click on the chrome leaves to be done outside.
#[derive(Clone, Copy, PartialEq, Eq, Debug)]
pub struct MouseOutcome {
    /// The action is for a modal, whose methods fall back to this remote.
    pub modal_fallback: Option<usize>,
    /// Older rows are wanted in this stream of a remote.
    pub backfill: Option<(usize, u32)>,
}

/// The wheel over a pane: a terminal that asks for reports gets one, any
/// other scrolls.
pub open spec fn wheel_step(
    was: LoopModel,
    now: LoopModel,
    mouse: MouseEvent,
    report: PaneReport,
    step: MouseStep,
) -> bool {
    if no_target(was, mouse.column, mouse.row) {
        now == was && step is Nothing
    } else {
        let pane = was.app.pane_over(mouse.column, mouse.row).unwrap().pane;
        let (remote, stream_id) = was.stream_of(pane).unwrap();
        match report {
            PaneReport::Off => now == was && step == (MouseStep::Scroll {
                remote,
                stream_id,
                lines: wheel_lines(was.app.mouse_scroll_lines, mouse.kind) as i128,
            }),
            PaneReport::Unreported => now == was && step is Nothing,
            PaneReport::Bytes(bytes) => step is Nothing && now == was.typed_into(
                remote,
                was.ids.public_of(pane).unwrap().1,
                bytes@,
            ),
        }
    }
}

/// An event for the chrome, past the double click on a pane cell.
pub open spec fn chrome_step(
    was: LoopModel,
    now: LoopModel,
    mouse: MouseEvent,
    at: u64,
    step: MouseStep,
) -> bool {
    &&& now == double_click_step(was, mouse, at).0
    &&& match double_click_step(was, mouse, at).1 {
        Some(click) => step == MouseStep::SelectWord(click),
        None => step is Chrome,
    }
}

/// Whether a button event goes to the terminal under it.
pub open spec fn is_reported(m: LoopModel, mouse: MouseEvent, report: PaneReport) -> bool {
    m.app.mode == Mode::Terminal && !no_target(m, mouse.column, mouse.row) && report is Bytes
}

/// What a mouse event does.
pub open spec fn mouse_step(
    was: LoopModel,
    now: LoopModel,
    mouse: MouseEvent,
    hits: MouseHits,
    at: u64,
    step: MouseStep,
) -> bool {
    let clicked = mouse.kind == MouseEventKind::Down(MouseButton::Left);
    match mouse_route(was, mouse.kind, hits.chip) {
        MouseRoute::StartPrompt => if clicked && hits.accept {
            match step {
                MouseStep::Start(order) => start_step(was, now, Some(order)),
                _ => step is Nothing && start_step(was, now, None),
            }
        } else {
            step is Nothing && now == if clicked && hits.cancel {
                was.with_prompt(None)
            } else {
                was
            }
        },
        MouseRoute::EditDialog => if clicked && hits.accept {
            match step {
                MouseStep::DialogEdit(edit) => submit_step(was, now, Some(edit)),
                _ => step is Nothing && submit_step(was, now, None),
            }
        } else {
            step is Nothing && now == if clicked && hits.cancel {
                was.with_dialog(None)
            } else {
                was
            }
        },
        MouseRoute::RemoteList => step is Nothing && now == was.list_clicked(
            mouse.kind,
            hits.accept,
            hits.row,
        ),
        MouseRoute::Chip(chip, button) => step is Nothing && now == if chip
            < was.descriptors.len() && button == MouseButton::Left {
            was.chip_clicked(chip, at)
        } else {
            was
        },
        MouseRoute::Wheel => wheel_step(was, now, mouse, hits.report, step),
        MouseRoute::PaneButton => if is_reported(was, mouse, hits.report) {
            let pane = was.app.pane_over(mouse.column, mouse.row).unwrap().pane;
            step is Nothing && now == was.reported(
                mouse.kind,
                pane,
                was.stream_of(pane).unwrap().0,
                was.ids.public_of(pane).unwrap().1,
                hits.report->Bytes_0@,
            )
        } else {
            chrome_step(was, now, mouse, at, step)
        },
        MouseRoute::Chrome => chrome_step(was, now, mouse, at, step),
    }
}

impl ClientLoop {
    fn wheel(&mut self, mouse: MouseEvent, report: PaneReport) -> (r: MouseStep)
        requires
            old(self).wf(),
        ensures
            final(self).wf(),
            wheel_step(old(self)@, final(self)@, mouse, report, r),
    {
        match self.pane_target(mouse.column, mouse.row) {
            Some(target) => match report {
                PaneReport::Off => MouseStep::Scroll {
                    remote: target.remote,
                    stream_id: target.stream_id,
                    lines: wheel_delta(self.app.mouse_scroll_lines, mouse.kind),
                },
                PaneReport::Unreported => MouseStep::Nothing,
                PaneReport::Bytes(bytes) => {
                    self.send_pane_bytes(
                        target.remote,
                        target.pane_id.as_str(),
                        bytes.as_slice(),
                    );
                    MouseStep::Nothing
                },
            },
            None => MouseStep::Nothing,
        }
    }

    fn chrome_event(&mut self, mouse: MouseEvent, now: u64) -> (r: MouseStep)
        requires
            old(self).wf(),
        ensures
            final(self).wf(),
            chrome_step(old(self)@, final(self)@, mouse, now, r),
    {
        match self.handle_pane_double_click(mouse, now) {
            Some(click) => MouseStep::SelectWord(click),
            None => MouseStep::Chrome,
        }
    }

    /// Takes one mouse event. Modals swallow it while open; then come the
    /// chips, then the terminal under it, then the rest of the chrome.
    pub fn handle_mouse(&mut self, mouse: MouseEvent, hits: MouseHits, now: u64) -> (r: MouseStep)
        requires
            old(self).wf(),
        ensures
            final(self).wf(),
            mouse_step(old(self)@, final(self)@, mouse, hits, now, r),
    {
        match self.route_mouse(mouse.kind, hits.chip) {
            MouseRoute::StartPrompt => match self.handle_start_prompt_click(
                mouse.kind,
                hits.accept,
                hits.cancel,
            ) {
                Some(order) => MouseStep::Start(order),
                None => MouseStep::Nothing,
            },
            MouseRoute::EditDialog => match self.handle_dialog_click(
                mouse.kind,
                hits.accept,
                hits.cancel,
            ) {
                Some(edit) => MouseStep::DialogEdit(edit),
                None => MouseStep::Nothing,
            },
            MouseRoute::RemoteList => {
                self.handle_remote_list_click(mouse.kind, hits.accept, hits.row);
                MouseStep::Nothing
            },
            MouseRoute::Chip(chip, button) => {
                self.handle_chip_click(chip, button, now);
                MouseStep::Nothing
            },
            MouseRoute::Wheel => self.wheel(mouse, hits.report),
            MouseRoute::PaneButton => {
                if let PaneReport::Bytes(bytes) = &hits.report {
                    if let Some(target) = self.report_target(mouse.column, mouse.row) {
                        self.forward_reported_mouse_button(mouse.kind, &target, bytes.as_slice());
                        return MouseStep::Nothing;
                    }
                }
                self.chrome_event(mouse, now)
            },
            MouseRoute::Chrome => self.chrome_event(mouse, now),
        }
    }

    fn run_mouse_action(&mut self, mode_before: Mode, action: Option<MouseAction>)
        requires
            old(self).wf(),
        ensures
            final(self).wf(),
            final(self)@ == old(self)@.chrome_ran(mode_before, action),
    {
        reveal(LoopModel::chrome_ran);
        let intent = dispatch_mouse_intent(
            mode_before,
            action,
            &self.mirrors,
            &self.ids,
            self.descriptors.as_slice(),
            &mut self.app,
            &mut self.chrome,
        );
        if let Some((remote, method)) = intent {
            self.send_api_request(remote, &method);
        }
    }

    /// Carries out what a click on the chrome came to.
    pub fn handle_mouse_action(&mut self, mode_before: Mode, action: Option<MouseAction>) -> (r:
        MouseOutcome)
        requires
            old(self).wf(),
        ensures
            final(self).wf(),
            final(self)@ == old(self)@.mouse_ran(mode_before, action),
            r.modal_fallback == if action == Some(MouseAction::Other) {
                Some(old(self)@.chrome.selection.effective_focus(old(self)@.descriptors))
            } else {
                None
            },
            r.backfill == match old(self)@.app.request_history_backfill_pane {
                Some(pane) => old(self)@.stream_of(pane),
                None => None,
            },
    {
        let fallback: usize = self.chrome.selection.effective_focused_remote(
            self.descriptors.as_slice(),
        );
        let modal: bool = match &action {
            Some(MouseAction::Other) => true,
            _ => false,
        };
        let backfill: Option<(usize, u32)> = match self.app.request_history_backfill_pane {
            Some(pane) => self.stream_for_composed_pane(pane),
            None => None,
        };
        self.run_mouse_action(mode_before, action);
        let _ = self.app.take_pane_backfill();
        MouseOutcome {
            modal_fallback: if modal {
                Some(fallback)
            } else {
                None
            },
            backfill,
        }
    }
}

/// While a dialog is open, the mouse reaches no chip, terminal or chrome.
pub proof fn dialogs_swallow_the_mouse(
    was: LoopModel,
    now: LoopModel,
    mouse: MouseEvent,
    hits: MouseHits,
    at: u64,
    step: MouseStep,
)
    requires
        mouse_step(was, now, mouse, hits, at, step),
        was.chrome.remote_start is Some || was.chrome.remote_edit is Some
            || was.chrome.remote_list is Some,
    ensures
        !(step is Scroll),
        !(step is SelectWord),
        !(step is Chrome),
        now.app == was.app,
        now.links == was.links,
        now.mirrors == was.mirrors,
        now.chrome.selection == was.chrome.selection,
        now.chrome.last_pane_click == was.chrome.last_pane_click,
{
}

/// A click on a chip never touches a link or a mirror: remotes out of view
/// stay connected and syncing.
pub proof fn chip_clicks_keep_connections(m: LoopModel, chip: usize, now: u64)
    requires
        chip < m.descriptors.len(),
    ensures
        m.chip_clicked(chip, now).links == m.links,
        m.chip_clicked(chip, now).mirrors == m.mirrors,
        m.chip_clicked(chip, now).descriptors == m.descriptors,
{
}

} // verus!
