//! What time does, and what is derived from the state before each draw.
use crate::client_state::app_state::{AppState, Mode, Toast};
use crate::client_state::compose::{composed_terminal_id, scoped};
use crate::client_state::fleet_view::{select_window_title, RemoteDescriptor};
use crate::client_state::mirror::{MirrorModel, RemoteMirror, RemoteMirrors};
use crate::client_state::run::state::{ClientLoop, InteractionState, LoopModel, UiModel};
use crate::sorted_map::SortedMap;
use crate::text::{copy_opt, opt_view, same_opt};
use vstd::prelude::*;

verus! {

/// How long a status flash stays, in milliseconds.
pub const STATUS_FLASH_TTL_MS: u64 = 2_500;

/// One visual step of the connecting spinner, in milliseconds.
pub const SPINNER_FRAME_INTERVAL_MS: u64 = 120;

/// How much the spinner's tick advances for one visual step.
pub const SPINNER_STEP: u32 = 8;

/// The context shown with a status flash.
pub const FLASH_CONTEXT: &'static str = "remotes";

pub open spec fn elapsed(now: u64, at: u64) -> u64 {
    if now >= at {
        (now - at) as u64
    } else {
        0
    }
}

/// The view with the spinner one visual step on.
pub open spec fn stepped(app: AppState) -> AppState {
    AppState {
        spinner_tick: ((app.spinner_tick + SPINNER_STEP) % 0x1_0000_0000) as u32,
        ..app
    }
}

/// Whether a status flash has had its time.
pub open spec fn flash_expired(ui: UiModel, now: u64) -> bool {
    ui.status_flash matches Some((_, at)) && elapsed(now, at) > STATUS_FLASH_TTL_MS
}

/// Whether the spinner is due for its next step.
pub open spec fn spinner_due(ui: UiModel, connecting: bool, now: u64) -> bool {
    connecting && match ui.last_spinner_step {
        Some(at) => elapsed(now, at) >= SPINNER_FRAME_INTERVAL_MS,
        None => true,
    }
}

/// An expired flash is gone; the spinner steps while something connects.
pub open spec fn ui_ticked(ui: UiModel, connecting: bool, now: u64) -> UiModel {
    UiModel {
        status_flash: if flash_expired(ui, now) {
            None
        } else {
            ui.status_flash
        },
        last_spinner_step: if spinner_due(ui, connecting, now) {
            Some(now)
        } else if connecting {
            ui.last_spinner_step
        } else {
            None
        },
        ..ui
    }
}

fn tick_ui(ui: &mut InteractionState, connecting: bool, now: u64) -> (r: (bool, bool))
    ensures
        final(ui)@ == ui_ticked(old(ui)@, connecting, now),
        r == (flash_expired(old(ui)@, now), spinner_due(old(ui)@, connecting, now)),
{
    let expired: bool = match &ui.status_flash {
        Some((_, at)) => now.saturating_sub(*at) > STATUS_FLASH_TTL_MS,
        None => false,
    };
    let due: bool = connecting && match ui.last_spinner_step {
        Some(at) => now.saturating_sub(at) >= SPINNER_FRAME_INTERVAL_MS,
        None => true,
    };
    if expired {
        ui.status_flash = None;
    }
    if due {
        ui.last_spinner_step = Some(now);
    } else if !connecting {
        ui.last_spinner_step = None;
    }
    (expired, due)
}

impl LoopModel {
    pub open spec fn any_connecting(self) -> bool {
        exists|i: usize| #[trigger]
            self.mirrors.contains_key(i) && self.mirrors[i].connection is Connecting
    }

    /// What a tick of the clock does.
    pub open spec fn ticked(self, now: u64) -> LoopModel {
        LoopModel {
            ui: ui_ticked(self.ui, self.any_connecting(), now),
            app: if spinner_due(self.ui, self.any_connecting(), now) {
                stepped(self.app)
            } else {
                self.app
            },
            ..self
        }
    }

    /// The title the host terminal should show: the focused remote's.
    pub open spec fn wanted_title(self) -> Option<Seq<char>> {
        let focused = self.chrome.selection.effective_focus(self.descriptors);
        if self.chrome.window_titles.contains_key(focused) {
            Some(self.chrome.window_titles[focused])
        } else {
            None
        }
    }

    /// Whether copy mode runs on a pane that is gone.
    pub open spec fn copy_mode_orphaned(self) -> bool {
        match self.app.copy_mode_pane {
            Some(pane) => match self.ids.public_of(pane) {
                Some((remote, public)) => !(self.mirrors.contains_key(remote)
                    && self.mirrors[remote].catalog.has_pane(public)),
                None => true,
            },
            None => false,
        }
    }
}

/// The base mode that fits whether anything is focused; other modes stay.
pub open spec fn settled_mode(mode: Mode, has_focus: bool) -> Mode {
    if mode == Mode::Terminal && !has_focus {
        Mode::Navigate
    } else if mode == Mode::Navigate && has_focus {
        Mode::Terminal
    } else {
        mode
    }
}

/// The fleet modal that is drawn over the view.
#[derive(Clone, Copy, PartialEq, Eq, Structural, Debug)]
pub enum FleetOverlay {
    StartPrompt,
    EditDialog,
    RemoteList,
}

impl LoopModel {
    /// The fleet modal on top. The dialog is reached from the list, so it is
    /// drawn over it; the start prompt wins over both, as with keys.
    pub open spec fn overlay(self) -> Option<FleetOverlay> {
        if self.chrome.remote_start is Some {
            Some(FleetOverlay::StartPrompt)
        } else if self.chrome.remote_edit is Some {
            Some(FleetOverlay::EditDialog)
        } else if self.chrome.remote_list is Some {
            Some(FleetOverlay::RemoteList)
        } else {
            None
        }
    }
}

impl ClientLoop {
    /// The fleet modal on top.
    pub fn fleet_overlay(&self) -> (r: Option<FleetOverlay>)
        ensures
            r == self@.overlay(),
    {
        if self.chrome.remote_start.is_some() {
            Some(FleetOverlay::StartPrompt)
        } else if self.chrome.remote_edit.is_some() {
            Some(FleetOverlay::EditDialog)
        } else if self.chrome.remote_list.is_some() {
            Some(FleetOverlay::RemoteList)
        } else {
            None
        }
    }

    /// Expires the status flash and animates the spinner. True when the view
    /// has to be drawn again.
    pub fn service_ui_ticks(&mut self, now: u64) -> (r: bool)
        requires
            old(self).wf(),
        ensures
            final(self).wf(),
            final(self)@ == old(self)@.ticked(now),
            r == (flash_expired(old(self)@.ui, now) || spinner_due(
                old(self)@.ui,
                old(self)@.any_connecting(),
                now,
            )),
    {
        let connecting: bool = self.mirrors.any_connecting();
        let (expired, due): (bool, bool) = tick_ui(&mut self.ui, connecting, now);
        if due {
            self.app.advance_spinner(SPINNER_STEP);
        }
        expired || due
    }

    /// Shows a live status flash as the view's toast; drops an expired one.
    pub fn apply_status_flash(&mut self, now: u64)
        requires
            old(self).wf(),
        ensures
            final(self).wf(),
            final(self)@.ui == (UiModel {
                status_flash: if flash_expired(old(self)@.ui, now) {
                    None
                } else {
                    old(self)@.ui.status_flash
                },
                ..old(self)@.ui
            }),
            match final(self)@.ui.status_flash {
                Some((message, _)) => final(self)@.app.toast matches Some(t) && t.title@ == message
                    && t.context@ == FLASH_CONTEXT@,
                None => final(self)@.app.toast == old(self)@.app.toast,
            },
            final(self)@ == (LoopModel {
                ui: final(self)@.ui,
                app: AppState { toast: final(self)@.app.toast, ..old(self)@.app },
                ..old(self)@
            }),
    {
        let toast: Option<Toast> = match &self.ui.status_flash {
            Some((message, at)) => {
                if now.saturating_sub(*at) > STATUS_FLASH_TTL_MS {
                    None
                } else {
                    Some(Toast { title: message.clone(), context: FLASH_CONTEXT.to_owned() })
                }
            },
            None => {
                return;
            },
        };
        match toast {
            Some(toast) => {
                self.app.show_toast(toast);
            },
            None => {
                self.ui.status_flash = None;
            },
        }
    }

    /// Keeps the mode consistent with what is composed.
    pub fn sync_mode(&mut self)
        requires
            old(self).wf(),
        ensures
            final(self).wf(),
            final(self)@ == (LoopModel {
                app: AppState {
                    mode: settled_mode(
                        old(self).app.mode,
                        old(self).app.active_workspace() is Some,
                    ),
                    ..old(self).app
                },
                ..old(self)@
            }),
    {
        let has_focus: bool = match self.app.active {
            Some(i) => i < self.app.workspaces.len(),
            None => false,
        };
        match self.app.mode {
            Mode::Terminal => {
                if !has_focus {
                    self.app.set_mode(Mode::Navigate);
                }
            },
            Mode::Navigate => {
                if has_focus {
                    self.app.set_mode(Mode::Terminal);
                }
            },
            _ => {},
        }
    }

    /// The in-view remotes, in fleet order.
    pub fn in_view_remotes(&self) -> (r: Vec<usize>)
        ensures
            r@ == self@.chrome.selection.in_view(self@.descriptors).map_values(
                |d: RemoteDescriptor| d.index,
            ),
    {
        let view = self.chrome.selection.in_view(self.descriptors.as_slice());
        let ghost all = self@.chrome.selection.in_view(self@.descriptors);
        let mut out: Vec<usize> = Vec::new();
        let mut i: usize = 0;
        while i < view.len()
            invariant
                i <= view@.len(),
                view@.len() == all.len(),
                forall|j: int| 0 <= j < view@.len() ==> *(#[trigger] view@[j]) == all[j],
                out@.len() == i,
                forall|j: int| 0 <= j < i ==> #[trigger] out@[j] == all[j].index,
            decreases view@.len() - i,
        {
            assert(*view@[i as int] == all[i as int]);
            out.push(view[i].index);
            i = i + 1;
        }
        assert(out@ =~= all.map_values(|d: RemoteDescriptor| d.index));
        out
    }

    /// The window title to write, if it changed: `Some(None)` clears it.
    pub fn apply_window_title(&mut self) -> (r: Option<Option<String>>)
        requires
            old(self).wf(),
        ensures
            final(self).wf(),
            final(self)@ == (LoopModel {
                ui: UiModel { last_window_title: old(self)@.wanted_title(), ..old(self)@.ui },
                ..old(self)@
            }),
            match r {
                Some(title) => opt_view(title) == old(self)@.wanted_title()
                    && old(self)@.wanted_title() != old(self)@.ui.last_window_title,
                None => old(self)@.wanted_title() == old(self)@.ui.last_window_title,
            },
    {
        let focused: usize = self.chrome.selection.effective_focused_remote(
            self.descriptors.as_slice(),
        );
        let wanted: Option<String> = match select_window_title(
            &self.chrome.window_titles,
            focused,
        ) {
            Some(t) => Some(t.to_owned()),
            None => None,
        };
        if same_opt(&wanted, &self.ui.last_window_title) {
            return None;
        }
        let title = copy_opt(&wanted);
        self.ui.last_window_title = wanted;
        Some(title)
    }

    /// Whether copy mode runs on a pane that is gone. Copy mode cannot outlive
    /// its pane.
    pub fn copy_mode_pane_gone(&self) -> (r: bool)
        requires
            self.wf(),
        ensures
            r == self@.copy_mode_orphaned(),
    {
        match self.app.copy_mode_pane {
            Some(pane) => match self.ids.public_pane_id(pane) {
                Some((remote, public)) => match self.mirrors.get(remote) {
                    Some(mirror) => mirror.catalog.pane(public).is_none(),
                    None => true,
                },
                None => true,
            },
            None => false,
        }
    }
}

/// Where a composed terminal's screen comes from: its remote and stream.
pub open spec fn screens_of(
    base: Map<Seq<char>, (usize, u32)>,
    m: MirrorModel,
    streams: Seq<(String, u32)>,
) -> Map<Seq<char>, (usize, u32)>
    decreases streams.len(),
{
    if streams.len() == 0 {
        base
    } else {
        let before = screens_of(base, m, streams.drop_last());
        let (pane, stream) = streams.last();
        match m.catalog.pane(pane@) {
            Some(p) => if m.replicas.contains_key(stream) {
                before.insert(scoped(m.remote_index, p.terminal_id@), (m.remote_index, stream))
            } else {
                before
            },
            None => before,
        }
    }
}

/// Adds a mirror's replicas to the screens of composed terminals.
pub fn add_screens(screens: &mut SortedMap<String, (usize, u32)>, mirror: &RemoteMirror)
    requires
        old(screens).wf(),
        mirror.wf(),
    ensures
        final(screens).wf(),
        final(screens)@ == screens_of(old(screens)@, mirror@, mirror.pane_streams.entries@),
{
    let ghost all = mirror.pane_streams.entries@;
    let mut i: usize = 0;
    assert(all.take(0) =~= Seq::empty());
    while i < mirror.pane_streams.entries.len()
        invariant
            all == mirror.pane_streams.entries@,
            mirror.wf(),
            screens.wf(),
            i <= all.len(),
            screens@ == screens_of(old(screens)@, mirror@, all.take(i as int)),
        decreases all.len() - i,
    {
        proof {
            assert(all.take(i + 1).drop_last() =~= all.take(i as int));
            assert(all.take(i + 1).last() == all[i as int]);
        }
        let stream: u32 = mirror.pane_streams.entries[i].1;
        if let Some(pane) = mirror.catalog.pane(mirror.pane_streams.entries[i].0.as_str()) {
            if mirror.replicas.contains(&stream) {
                screens.insert(
                    composed_terminal_id(mirror.remote_index, pane.terminal_id.as_str()),
                    (mirror.remote_index, stream),
                );
            }
        }
        i = i + 1;
    }
    assert(all.take(i as int) =~= all);
}

/// The screens of the mirrors in view, one mirror after the other.
pub open spec fn view_screens(mirrors: RemoteMirrors, view: Seq<usize>) -> Map<
    Seq<char>,
    (usize, u32),
>
    decreases view.len(),
{
    if view.len() == 0 {
        Map::empty()
    } else {
        let before = view_screens(mirrors, view.drop_last());
        if mirrors.mirrors@.contains_key(view.last()) {
            let m = mirrors.mirrors@[view.last()];
            screens_of(before, m@, m.pane_streams.entries@)
        } else {
            before
        }
    }
}

/// The screens of the mirrors in view, by composed terminal id.
pub fn screens_for_view(mirrors: &RemoteMirrors, view: &Vec<usize>) -> (r: SortedMap<
    String,
    (usize, u32),
>)
    requires
        mirrors.wf(),
    ensures
        r.wf(),
        r@ == view_screens(*mirrors, view@),
{
    let mut screens: SortedMap<String, (usize, u32)> = SortedMap::new();
    let mut i: usize = 0;
    assert(view@.take(0) =~= Seq::empty());
    while i < view.len()
        invariant
            mirrors.wf(),
            screens.wf(),
            i <= view@.len(),
            screens@ == view_screens(*mirrors, view@.take(i as int)),
        decreases view@.len() - i,
    {
        proof {
            assert(view@.take(i + 1).drop_last() =~= view@.take(i as int));
            assert(view@.take(i + 1).last() == view@[i as int]);
        }
        if let Some(mirror) = mirrors.get(view[i]) {
            add_screens(&mut screens, mirror);
        }
        i = i + 1;
    }
    assert(view@.take(i as int) =~= view@);
    screens
}

} // verus!
