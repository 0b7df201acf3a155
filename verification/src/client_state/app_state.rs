//! The composed view as plain state: workspaces, terminals, focus, mode, and
//! the flags the loop reads.
use crate::client_state::fleet_view::RemoteChipState;
use crate::input::{KeyCode, KeyModifiers, Rect, TerminalKey};
use crate::sorted_map::SortedMap;
use crate::text::opt_view;
use std::collections::BTreeMap;
use vstd::prelude::*;

verus! {

/// What the client's input goes to.
#[derive(Clone, Copy, PartialEq, Eq, Structural, Debug)]
pub enum Mode {
    Terminal,
    Navigate,
    Prefix,
    Copy,
    RenameWorkspace,
    RenameTab,
    RenamePane,
    ConfirmClose,
    ContextMenu,
    GlobalMenu,
    KeybindHelp,
    Settings,
    Navigator,
    Worktree,
}

/// One key of a binding.
#[derive(Clone, Copy, PartialEq, Eq, Structural, Debug)]
pub struct KeyChord {
    pub code: KeyCode,
    pub modifiers: KeyModifiers,
}

/// An ASCII capital as its small letter.
pub open spec fn lower(c: char) -> char {
    if 'A' <= c && c <= 'Z' {
        ((c as u8) + 32) as u8 as char
    } else {
        c
    }
}

impl KeyChord {
    /// The chord with a capital spelled as shift plus its small letter, which
    /// is how the several reports of a shifted letter agree.
    pub open spec fn plain(self) -> KeyChord {
        match self.code {
            KeyCode::Char(c) => if 'A' <= c && c <= 'Z' {
                KeyChord {
                    code: KeyCode::Char(lower(c)),
                    modifiers: KeyModifiers { shift: true, ..self.modifiers },
                }
            } else {
                self
            },
            _ => self,
        }
    }

    fn spelled(self) -> (r: KeyChord)
        ensures
            r == self.plain(),
    {
        match self.code {
            KeyCode::Char(c) => {
                if 'A' <= c && c <= 'Z' {
                    let small: char = ((c as u8) + 32) as char;
                    KeyChord {
                        code: KeyCode::Char(small),
                        modifiers: KeyModifiers {
                            shift: true,
                            control: self.modifiers.control,
                            alt: self.modifiers.alt,
                            extra: self.modifiers.extra,
                        },
                    }
                } else {
                    self
                }
            },
            _ => self,
        }
    }

    pub open spec fn hit_by(self, key: TerminalKey) -> bool {
        self.plain() == (KeyChord { code: key.code, modifiers: key.modifiers }).plain()
    }

    /// Whether a key event presses this chord.
    pub fn matches(self, key: TerminalKey) -> (r: bool)
        ensures
            r == self.hit_by(key),
    {
        self.spelled() == (KeyChord { code: key.code, modifiers: key.modifiers }).spelled()
    }
}

/// The keys bound to one action.
#[derive(Debug)]
pub struct Binding {
    pub chords: Vec<KeyChord>,
}

impl Binding {
    pub open spec fn hit_by(self, key: TerminalKey) -> bool {
        exists|i: int| 0 <= i < self.chords@.len() && (#[trigger] self.chords@[i]).hit_by(key)
    }

    /// Bound to nothing.
    pub fn none() -> (r: Binding)
        ensures
            r.chords@.len() == 0,
            forall|key: TerminalKey| !r.hit_by(key),
    {
        Binding { chords: Vec::new() }
    }

    /// Bound to one key.
    pub fn one(code: KeyCode, modifiers: KeyModifiers) -> (r: Binding)
        ensures
            r.chords@ == seq![KeyChord { code, modifiers }],
    {
        let mut chords: Vec<KeyChord> = Vec::new();
        chords.push(KeyChord { code, modifiers });
        assert(chords@ =~= seq![KeyChord { code, modifiers }]);
        Binding { chords }
    }

    /// Whether the key is one of the bound ones.
    pub fn matches_prefix_key(&self, key: TerminalKey) -> (r: bool)
        ensures
            r == self.hit_by(key),
    {
        let mut i: usize = 0;
        while i < self.chords.len()
            invariant
                i <= self.chords@.len(),
                forall|j: int| 0 <= j < i ==> !(#[trigger] self.chords@[j]).hit_by(key),
            decreases self.chords@.len() - i,
        {
            if self.chords[i].matches(key) {
                assert(self.chords@[i as int].hit_by(key));
                return true;
            }
            i = i + 1;
        }
        false
    }
}

/// The bindings that prefix mode resolves.
#[derive(Debug)]
pub struct Keybinds {
    pub toggle_sidebar: Binding,
    pub copy_mode: Binding,
    pub new_workspace: Binding,
    pub close_workspace: Binding,
    pub previous_workspace: Binding,
    pub next_workspace: Binding,
    pub new_tab: Binding,
    pub previous_tab: Binding,
    pub next_tab: Binding,
    pub close_tab: Binding,
    pub split_horizontal: Binding,
    pub split_vertical: Binding,
    pub close_pane: Binding,
    pub zoom: Binding,
    pub focus_pane_left: Binding,
    pub focus_pane_down: Binding,
    pub focus_pane_up: Binding,
    pub focus_pane_right: Binding,
}

impl Keybinds {
    /// No action bound.
    pub fn unbound() -> (r: Keybinds)
        ensures
            forall|key: TerminalKey| !r.toggle_sidebar.hit_by(key),
            forall|key: TerminalKey| !r.copy_mode.hit_by(key),
            forall|key: TerminalKey| r.action_of(key) is None,
    {
        Keybinds {
            toggle_sidebar: Binding::none(),
            copy_mode: Binding::none(),
            new_workspace: Binding::none(),
            close_workspace: Binding::none(),
            previous_workspace: Binding::none(),
            next_workspace: Binding::none(),
            new_tab: Binding::none(),
            previous_tab: Binding::none(),
            next_tab: Binding::none(),
            close_tab: Binding::none(),
            split_horizontal: Binding::none(),
            split_vertical: Binding::none(),
            close_pane: Binding::none(),
            zoom: Binding::none(),
            focus_pane_left: Binding::none(),
            focus_pane_down: Binding::none(),
            focus_pane_up: Binding::none(),
            focus_pane_right: Binding::none(),
        }
    }

    /// The action a prefix-mode key stands for: the first whose binding it
    /// hits, in this order. Of two cycling or split bindings on one key, the
    /// forward and the side-by-side one win.
    pub open spec fn action_of(self, key: TerminalKey) -> Option<PrefixAction> {
        if self.new_workspace.hit_by(key) {
            Some(PrefixAction::NewWorkspace)
        } else if self.close_workspace.hit_by(key) {
            Some(PrefixAction::CloseWorkspace)
        } else if self.next_workspace.hit_by(key) {
            Some(PrefixAction::NextWorkspace)
        } else if self.previous_workspace.hit_by(key) {
            Some(PrefixAction::PreviousWorkspace)
        } else if self.new_tab.hit_by(key) {
            Some(PrefixAction::NewTab)
        } else if self.next_tab.hit_by(key) {
            Some(PrefixAction::NextTab)
        } else if self.previous_tab.hit_by(key) {
            Some(PrefixAction::PreviousTab)
        } else if self.close_tab.hit_by(key) {
            Some(PrefixAction::CloseTab)
        } else if self.split_vertical.hit_by(key) {
            Some(PrefixAction::SplitVertical)
        } else if self.split_horizontal.hit_by(key) {
            Some(PrefixAction::SplitHorizontal)
        } else if self.close_pane.hit_by(key) {
            Some(PrefixAction::ClosePane)
        } else if self.zoom.hit_by(key) {
            Some(PrefixAction::Zoom)
        } else if self.focus_pane_left.hit_by(key) {
            Some(PrefixAction::FocusLeft)
        } else if self.focus_pane_down.hit_by(key) {
            Some(PrefixAction::FocusDown)
        } else if self.focus_pane_up.hit_by(key) {
            Some(PrefixAction::FocusUp)
        } else if self.focus_pane_right.hit_by(key) {
            Some(PrefixAction::FocusRight)
        } else {
            None
        }
    }

    /// The action a prefix-mode key stands for.
    pub fn resolve(&self, key: TerminalKey) -> (r: Option<PrefixAction>)
        ensures
            r == self.action_of(key),
    {
        if self.new_workspace.matches_prefix_key(key) {
            Some(PrefixAction::NewWorkspace)
        } else if self.close_workspace.matches_prefix_key(key) {
            Some(PrefixAction::CloseWorkspace)
        } else if self.next_workspace.matches_prefix_key(key) {
            Some(PrefixAction::NextWorkspace)
        } else if self.previous_workspace.matches_prefix_key(key) {
            Some(PrefixAction::PreviousWorkspace)
        } else if self.new_tab.matches_prefix_key(key) {
            Some(PrefixAction::NewTab)
        } else if self.next_tab.matches_prefix_key(key) {
            Some(PrefixAction::NextTab)
        } else if self.previous_tab.matches_prefix_key(key) {
            Some(PrefixAction::PreviousTab)
        } else if self.close_tab.matches_prefix_key(key) {
            Some(PrefixAction::CloseTab)
        } else if self.split_vertical.matches_prefix_key(key) {
            Some(PrefixAction::SplitVertical)
        } else if self.split_horizontal.matches_prefix_key(key) {
            Some(PrefixAction::SplitHorizontal)
        } else if self.close_pane.matches_prefix_key(key) {
            Some(PrefixAction::ClosePane)
        } else if self.zoom.matches_prefix_key(key) {
            Some(PrefixAction::Zoom)
        } else if self.focus_pane_left.matches_prefix_key(key) {
            Some(PrefixAction::FocusLeft)
        } else if self.focus_pane_down.matches_prefix_key(key) {
            Some(PrefixAction::FocusDown)
        } else if self.focus_pane_up.matches_prefix_key(key) {
            Some(PrefixAction::FocusUp)
        } else if self.focus_pane_right.matches_prefix_key(key) {
            Some(PrefixAction::FocusRight)
        } else {
            None
        }
    }

    /// A key bound to directional pane focus.
    pub open spec fn is_pane_focus(self, key: TerminalKey) -> bool {
        self.focus_pane_left.hit_by(key) || self.focus_pane_down.hit_by(key)
            || self.focus_pane_up.hit_by(key) || self.focus_pane_right.hit_by(key)
    }
}

/// What a prefix-mode key asks for.
#[derive(Clone, Copy, PartialEq, Eq, Structural, Debug)]
pub enum PrefixAction {
    NewWorkspace,
    CloseWorkspace,
    NextWorkspace,
    PreviousWorkspace,
    NewTab,
    NextTab,
    PreviousTab,
    CloseTab,
    SplitVertical,
    SplitHorizontal,
    ClosePane,
    Zoom,
    FocusLeft,
    FocusDown,
    FocusUp,
    FocusRight,
}

/// The axis along which a split lays its halves out.
#[derive(Clone, Copy, PartialEq, Eq, Structural, Debug)]
pub enum Direction {
    Horizontal,
    Vertical,
}

/// A split tree of composed pane ids. A ratio is carried by its bit pattern.
#[derive(PartialEq, Eq, Debug)]
pub enum Node {
    Pane(usize),
    Split { direction: Direction, ratio_bits: u32, first: Box<Node>, second: Box<Node> },
}

/// A tab's layout: its split tree and its focused pane.
#[derive(Debug)]
pub struct TileLayout {
    pub root: Node,
    pub focus: usize,
}

/// A composed pane.
#[derive(Clone, PartialEq, Eq, Debug)]
pub struct PaneState {
    pub terminal_id: String,
    /// Whether the agent's result needs no attention.
    pub seen: bool,
}

pub struct PaneStateModel {
    pub terminal_id: Seq<char>,
    pub seen: bool,
}

impl View for PaneState {
    type V = PaneStateModel;

    open spec fn view(&self) -> PaneStateModel {
        PaneStateModel { terminal_id: self.terminal_id@, seen: self.seen }
    }
}

/// A composed tab.
#[derive(Debug)]
pub struct Tab {
    pub number: usize,
    pub custom_name: Option<String>,
    pub root_pane: usize,
    pub layout: TileLayout,
    pub panes: BTreeMap<usize, PaneState>,
    pub zoomed: bool,
}

pub struct TabModel {
    pub number: usize,
    pub custom_name: Option<Seq<char>>,
    pub root_pane: usize,
    pub layout: TileLayout,
    pub panes: Map<usize, PaneStateModel>,
    pub zoomed: bool,
}

/// A map of values as a map of their views.
pub open spec fn views<I, V: View>(m: Map<I, V>) -> Map<I, V::V> {
    Map::new(|k: I| m.contains_key(k), |k: I| m[k]@)
}

/// The view of an insertion is the insertion of a view.
pub proof fn views_insert<I, V: View>(m: Map<I, V>, k: I, v: V)
    ensures
        views(m.insert(k, v)) == views(m).insert(k, v@),
{
    assert(views(m.insert(k, v)) =~= views(m).insert(k, v@));
}

/// The view of a removal is the removal from the view.
pub proof fn views_remove<I, V: View>(m: Map<I, V>, k: I)
    ensures
        views(m.remove(k)) == views(m).remove(k),
{
    assert(views(m.remove(k)) =~= views(m).remove(k));
}

impl View for Tab {
    type V = TabModel;

    open spec fn view(&self) -> TabModel {
        TabModel {
            number: self.number,
            custom_name: opt_view(self.custom_name),
            root_pane: self.root_pane,
            layout: self.layout,
            panes: views(self.panes@),
            zoomed: self.zoomed,
        }
    }
}

/// A composed workspace.
#[derive(Debug)]
pub struct Workspace {
    pub id: String,
    pub label: String,
    pub tabs: Vec<Tab>,
    pub active_tab: usize,
    /// Pane number badges by composed pane id.
    pub pane_numbers: BTreeMap<usize, usize>,
}

pub struct WorkspaceModel {
    pub id: Seq<char>,
    pub label: Seq<char>,
    pub tabs: Seq<TabModel>,
    pub active_tab: usize,
    pub pane_numbers: Map<usize, usize>,
}

impl View for Workspace {
    type V = WorkspaceModel;

    open spec fn view(&self) -> WorkspaceModel {
        WorkspaceModel {
            id: self.id@,
            label: self.label@,
            tabs: self.tabs@.map_values(|t: Tab| t@),
            active_tab: self.active_tab,
            pane_numbers: self.pane_numbers@,
        }
    }
}

impl WorkspaceModel {
    /// The focused pane of the active tab.
    pub open spec fn focused_pane(self) -> Option<usize> {
        if self.active_tab < self.tabs.len() {
            Some(self.tabs[self.active_tab as int].layout.focus)
        } else {
            None
        }
    }
}

impl Workspace {
    /// The focused pane of the active tab.
    pub fn focused_pane_id(&self) -> (r: Option<usize>)
        ensures
            r == self@.focused_pane(),
    {
        if self.active_tab < self.tabs.len() {
            Some(self.tabs[self.active_tab].layout.focus)
        } else {
            None
        }
    }
}

/// What an agent is doing, as the sidebar shows it.
#[derive(Clone, Copy, PartialEq, Eq, Structural, Debug)]
pub enum AgentState {
    Idle,
    Working,
    Blocked,
    Unknown,
}

/// Plain terminal metadata of one pane.
#[derive(Clone, PartialEq, Eq, Debug)]
pub struct TerminalState {
    pub cwd: String,
    pub terminal_title: Option<String>,
    pub manual_label: Option<String>,
    pub agent_name: Option<String>,
    pub state: AgentState,
    pub revision: u64,
}

pub struct TerminalStateModel {
    pub cwd: Seq<char>,
    pub terminal_title: Option<Seq<char>>,
    pub manual_label: Option<Seq<char>>,
    pub agent_name: Option<Seq<char>>,
    pub state: AgentState,
    pub revision: u64,
}

impl View for TerminalState {
    type V = TerminalStateModel;

    open spec fn view(&self) -> TerminalStateModel {
        TerminalStateModel {
            cwd: self.cwd@,
            terminal_title: opt_view(self.terminal_title),
            manual_label: opt_view(self.manual_label),
            agent_name: opt_view(self.agent_name),
            state: self.state,
            revision: self.revision,
        }
    }
}

/// The remote a composed workspace belongs to, as its label shows it.
#[derive(Clone, PartialEq, Eq, Debug)]
pub struct RemoteTag {
    pub name: String,
    pub hue_index: usize,
}

/// A short message shown over the view.
#[derive(Clone, PartialEq, Eq, Debug)]
pub struct Toast {
    pub title: String,
    pub context: String,
}

/// Where a pane's content is drawn.
#[derive(Clone, Copy, PartialEq, Eq, Structural, Debug)]
pub struct PaneArea {
    pub pane: usize,
    pub inner: Rect,
}

/// The composed view plus the flags the loop reads.
#[derive(Debug)]
pub struct AppState {
    pub mode: Mode,
    pub should_quit: bool,
    pub active: Option<usize>,
    pub selected: usize,
    pub workspaces: Vec<Workspace>,
    pub terminals: SortedMap<String, TerminalState>,
    pub toast: Option<Toast>,
    pub workspace_remote_tags: Vec<RemoteTag>,
    pub remote_chips: Vec<RemoteChipState>,
    pub sidebar_collapsed: bool,
    pub workspace_scroll: usize,
    pub agent_panel_scroll: usize,
    pub tab_scroll: usize,
    pub keybinds: Keybinds,
    pub prefix_key: KeyChord,
    /// Whether the fleet can be edited: it came from the config file.
    pub fleet_config_backed: bool,
    pub request_add_remote: bool,
    pub request_manage_remotes: bool,
    pub request_history_top_backfill: bool,
    /// A pane whose scrollbar was moved towards rows that are not loaded.
    pub request_history_backfill_pane: Option<usize>,
    pub copy_on_select: bool,
    /// Whether a finished text selection is on screen.
    pub selection_finalized: bool,
    /// Whether a text selection is drawn.
    pub selection_visible: bool,
    /// The pane copy mode runs on.
    pub copy_mode_pane: Option<usize>,
    pub context_menu_open: bool,
    pub spinner_tick: u32,
    pub mouse_scroll_lines: usize,
    /// Rows the chip strip takes on screen; none when it is laid away.
    pub chip_strip_height: u16,
    pub pane_areas: Vec<PaneArea>,
}

impl AppState {
    /// Maps in the view are in key order.
    pub open spec fn wf(&self) -> bool {
        self.terminals.wf()
    }

    /// Nothing composed, nothing asked for, nothing bound.
    pub open spec fn blank(self) -> bool {
        &&& self.mode == Mode::Navigate
        &&& !self.should_quit
        &&& self.active is None
        &&& self.selected == 0
        &&& self.workspaces@.len() == 0
        &&& self.terminals@ == Map::<Seq<char>, TerminalState>::empty()
        &&& self.toast is None
        &&& self.workspace_remote_tags@.len() == 0
        &&& self.remote_chips@.len() == 0
        &&& !self.sidebar_collapsed
        &&& self.workspace_scroll == 0
        &&& self.agent_panel_scroll == 0
        &&& self.tab_scroll == 0
        &&& forall|key: TerminalKey| #[trigger] self.keybinds.action_of(key) is None
        &&& forall|key: TerminalKey| !#[trigger] self.keybinds.toggle_sidebar.hit_by(key)
        &&& forall|key: TerminalKey| !#[trigger] self.keybinds.copy_mode.hit_by(key)
        &&& self.prefix_key.code == KeyCode::Char('b')
        &&& self.prefix_key.modifiers == (KeyModifiers {
            shift: false,
            control: true,
            alt: false,
            extra: false,
        })
        &&& !self.fleet_config_backed
        &&& !self.request_add_remote
        &&& !self.request_manage_remotes
        &&& !self.request_history_top_backfill
        &&& self.request_history_backfill_pane is None
        &&& self.copy_on_select
        &&& !self.selection_finalized
        &&& !self.selection_visible
        &&& self.copy_mode_pane is None
        &&& !self.context_menu_open
        &&& self.spinner_tick == 0
        &&& self.mouse_scroll_lines == 3
        &&& self.chip_strip_height == 0
        &&& self.pane_areas@.len() == 0
    }

    /// An empty view, with nothing bound but the prefix key.
    pub fn empty() -> (r: AppState)
        ensures
            r.wf(),
            r.blank(),
    {
        AppState {
            mode: Mode::Navigate,
            should_quit: false,
            active: None,
            selected: 0,
            workspaces: Vec::new(),
            terminals: SortedMap::new(),
            toast: None,
            workspace_remote_tags: Vec::new(),
            remote_chips: Vec::new(),
            sidebar_collapsed: false,
            workspace_scroll: 0,
            agent_panel_scroll: 0,
            tab_scroll: 0,
            keybinds: Keybinds::unbound(),
            prefix_key: KeyChord {
                code: KeyCode::Char('b'),
                modifiers: KeyModifiers::control(),
            },
            fleet_config_backed: false,
            request_add_remote: false,
            request_manage_remotes: false,
            request_history_top_backfill: false,
            request_history_backfill_pane: None,
            copy_on_select: true,
            selection_finalized: false,
            selection_visible: false,
            copy_mode_pane: None,
            context_menu_open: false,
            spinner_tick: 0,
            mouse_scroll_lines: 3,
            chip_strip_height: 0,
            pane_areas: Vec::new(),
        }
    }

    /// Drains the requests for the dialogs: add, manage.
    pub fn take_requests(&mut self) -> (r: (bool, bool))
        ensures
            *final(self) == (AppState {
                request_add_remote: false,
                request_manage_remotes: false,
                ..*old(self)
            }),
            r == (old(self).request_add_remote, old(self).request_manage_remotes),
    {
        let r: (bool, bool) = (self.request_add_remote, self.request_manage_remotes);
        self.request_add_remote = false;
        self.request_manage_remotes = false;
        r
    }

    /// Advances the spinner's tick, round the end.
    pub fn advance_spinner(&mut self, by: u32)
        ensures
            *final(self) == (AppState {
                spinner_tick: ((old(self).spinner_tick + by) % 0x1_0000_0000) as u32,
                ..*old(self)
            }),
    {
        self.spinner_tick = self.spinner_tick.wrapping_add(by);
    }

    /// Shows a toast.
    pub fn show_toast(&mut self, toast: Toast)
        ensures
            *final(self) == (AppState { toast: Some(toast), ..*old(self) }),
    {
        self.toast = Some(toast);
    }

    /// Collapses or expands the sidebar.
    pub fn toggle_sidebar(&mut self)
        ensures
            *final(self) == (AppState {
                sidebar_collapsed: !old(self).sidebar_collapsed,
                ..*old(self)
            }),
    {
        self.sidebar_collapsed = !self.sidebar_collapsed;
    }

    /// Asks the client to end.
    pub fn quit(&mut self)
        ensures
            *final(self) == (AppState { should_quit: true, ..*old(self) }),
    {
        self.should_quit = true;
    }

    /// Folds a modal mode back to the base mode.
    pub fn fold_modal(&mut self)
        ensures
            *final(self) == (AppState {
                mode: Mode::Navigate,
                context_menu_open: false,
                ..*old(self)
            }),
    {
        self.context_menu_open = false;
        self.mode = Mode::Navigate;
    }

    /// Drains the request for the top of history.
    pub fn take_top_backfill(&mut self) -> (r: bool)
        ensures
            *final(self) == (AppState { request_history_top_backfill: false, ..*old(self) }),
            r == old(self).request_history_top_backfill,
    {
        let r: bool = self.request_history_top_backfill;
        self.request_history_top_backfill = false;
        r
    }

    /// Drains the request for older rows of a pane.
    pub fn take_pane_backfill(&mut self) -> (r: Option<usize>)
        ensures
            *final(self) == (AppState { request_history_backfill_pane: None, ..*old(self) }),
            r == old(self).request_history_backfill_pane,
    {
        let r: Option<usize> = self.request_history_backfill_pane;
        self.request_history_backfill_pane = None;
        r
    }

    /// Changes the mode.
    pub fn set_mode(&mut self, mode: Mode)
        ensures
            *final(self) == (AppState { mode, ..*old(self) }),
    {
        self.mode = mode;
    }

    /// The workspace the composed focus is on.
    pub open spec fn active_workspace(&self) -> Option<WorkspaceModel> {
        match self.active {
            Some(i) => if i < self.workspaces@.len() {
                Some(self.workspaces@[i as int]@)
            } else {
                None
            },
            None => None,
        }
    }

    /// The composed pane that holds the focus.
    pub open spec fn focused_pane(&self) -> Option<usize> {
        match self.active_workspace() {
            Some(w) => w.focused_pane(),
            None => None,
        }
    }

    pub fn focused_pane_id(&self) -> (r: Option<usize>)
        ensures
            r == self.focused_pane(),
    {
        match self.active {
            Some(i) => {
                if i < self.workspaces.len() {
                    self.workspaces[i].focused_pane_id()
                } else {
                    None
                }
            },
            None => None,
        }
    }

    /// Whether a key opens prefix mode.
    pub fn is_prefix_key(&self, key: TerminalKey) -> (r: bool)
        ensures
            r == self.prefix_key.hit_by(key),
    {
        self.prefix_key.matches(key)
    }

    /// The pane whose content covers a cell.
    pub open spec fn pane_over(&self, column: u16, row: u16) -> Option<PaneArea> {
        crate::seqs::first_match(self.pane_areas@, area_over(column, row))
    }

    pub fn pane_at(&self, column: u16, row: u16) -> (r: Option<PaneArea>)
        ensures
            r == self.pane_over(column, row),
    {
        let test = |a: &PaneArea| -> (b: bool)
            ensures
                b == a.inner.covers(column, row),
            { a.inner.contains(column, row) };
        let i: usize = crate::seqs::find(
            self.pane_areas.as_slice(),
            test,
            Ghost(area_over(column, row)),
        );
        if i < self.pane_areas.len() {
            Some(self.pane_areas[i])
        } else {
            None
        }
    }
}

/// The area covers the cell.
pub open spec fn area_over(column: u16, row: u16) -> spec_fn(PaneArea) -> bool {
    |a: PaneArea| a.inner.covers(column, row)
}

} // verus!
