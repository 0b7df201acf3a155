//! The fleet as a list: every configured entry, disabled ones included, with
//! its live status, and what keys ask of it. Every action names its entry, so
//! a list that something else reordered cannot make it act on another remote.
use crate::client_state::connection::{ClientConnectionState, ConnectionModel};
use crate::client_state::fleet_view::{called, descriptor_called, RemoteDescriptor};
use crate::client_state::mirror::{MirrorModel, RemoteMirrors};
use crate::fleet::config::{MoveDirection, RemoteEntry};
use crate::input::{KeyCode, TerminalKey};
use crate::seqs::{find, first_index, first_index_props, first_match};
use crate::text::{opt_view, same};
use vstd::prelude::*;

verus! {

/// A remote's live state, as the list shows it.
#[derive(Clone, Copy, PartialEq, Eq, Structural, Debug)]
pub enum RemoteListStatus {
    Connected,
    Connecting,
    Offline,
    Stopped,
    /// Configured but taken out of the fleet.
    Disabled,
    /// Enabled, but nothing is known of it yet.
    Unknown,
}

/// One row: an entry and how it is doing.
#[derive(Clone, PartialEq, Eq, Debug)]
pub struct RemoteListRow {
    pub entry: RemoteEntry,
    pub status: RemoteListStatus,
}

/// State of the list.
#[derive(Clone, PartialEq, Eq, Debug)]
pub struct RemoteListState {
    pub rows: Vec<RemoteListRow>,
    /// The selected row: presentation only.
    pub selected: usize,
    /// A refused write.
    pub error: Option<String>,
}

/// The mathematical value of a list.
pub struct ListModel {
    pub rows: Seq<RemoteListRow>,
    pub selected: usize,
    pub error: Option<Seq<char>>,
}

impl View for RemoteListState {
    type V = ListModel;

    open spec fn view(&self) -> ListModel {
        ListModel { rows: self.rows@, selected: self.selected, error: opt_view(self.error) }
    }
}

/// The row of the entry called `name`.
pub open spec fn row_called(name: Seq<char>) -> spec_fn(RemoteListRow) -> bool {
    |r: RemoteListRow| r.entry.name@ == name
}

impl ListModel {
    /// The name of the selected entry, which every action is keyed on.
    pub open spec fn selected_name(self) -> Option<Seq<char>> {
        if self.selected < self.rows.len() {
            Some(self.rows[self.selected as int].entry.name@)
        } else {
            None
        }
    }

    pub open spec fn last(self) -> usize {
        if self.rows.len() == 0 {
            0
        } else {
            (self.rows.len() - 1) as usize
        }
    }

    /// The list with new rows. The selection follows the entry's name; when
    /// it is gone, the nearest surviving row is selected.
    pub open spec fn reloaded(self, rows: Seq<RemoteListRow>) -> ListModel {
        let clamped = ListModel { rows, ..self };
        let fallback = if self.selected <= clamped.last() {
            self.selected
        } else {
            clamped.last()
        };
        ListModel {
            rows,
            selected: match self.selected_name() {
                Some(name) => if first_index(rows, row_called(name)) < rows.len() {
                    first_index(rows, row_called(name)) as usize
                } else {
                    fallback
                },
                None => fallback,
            },
            ..self
        }
    }
}

impl RemoteListState {
    pub fn new(rows: Vec<RemoteListRow>) -> (r: RemoteListState)
        ensures
            r@ == (ListModel { rows: rows@, selected: 0, error: None }),
    {
        RemoteListState { rows, selected: 0, error: None }
    }

    pub fn selected_row(&self) -> (r: Option<&RemoteListRow>)
        ensures
            match r {
                Some(row) => self@.selected < self@.rows.len() && *row
                    == self@.rows[self@.selected as int],
                None => self@.selected >= self@.rows.len(),
            },
    {
        if self.selected < self.rows.len() {
            Some(&self.rows[self.selected])
        } else {
            None
        }
    }

    pub fn selected_name(&self) -> (r: Option<&str>)
        ensures
            match r {
                Some(n) => self@.selected_name() == Some(n@),
                None => self@.selected_name() is None,
            },
    {
        match self.selected_row() {
            Some(row) => Some(row.entry.name.as_str()),
            None => None,
        }
    }

    /// Replaces the rows after a write.
    pub fn reload(&mut self, rows: Vec<RemoteListRow>)
        ensures
            final(self)@ == old(self)@.reloaded(rows@),
    {
        let last: usize = rows.len().saturating_sub(1);
        let mut selected: usize = if self.selected <= last {
            self.selected
        } else {
            last
        };
        if let Some(name) = self.selected_name() {
            let test = |r: &RemoteListRow| -> (b: bool)
                ensures
                    b == (r.entry.name@ == name@),
                { same(r.entry.name.as_str(), name) };
            let i: usize = find(rows.as_slice(), test, Ghost(row_called(name@)));
            if i < rows.len() {
                selected = i;
            }
        }
        self.rows = rows;
        self.selected = selected;
    }

    /// Selects a row, as a click does, and clears the error.
    pub fn select(&mut self, row: usize)
        ensures
            final(self)@ == (ListModel { selected: row, error: None, ..old(self)@ }),
    {
        self.error = None;
        self.selected = row;
    }

    /// Records a refused write.
    pub fn refuse(&mut self, error: String)
        ensures
            final(self)@ == (ListModel { error: Some(error@), ..old(self)@ }),
    {
        self.error = Some(error);
    }
}

/// The status of a connection state.
pub open spec fn status_of(connection: ConnectionModel) -> RemoteListStatus {
    match connection {
        ConnectionModel::Connected { .. } => RemoteListStatus::Connected,
        ConnectionModel::Connecting { .. } => RemoteListStatus::Connecting,
        ConnectionModel::Stopped { .. } => RemoteListStatus::Stopped,
        ConnectionModel::Offline { .. } => RemoteListStatus::Offline,
        ConnectionModel::Incompatible { .. } => RemoteListStatus::Offline,
        ConnectionModel::Disconnected => RemoteListStatus::Unknown,
    }
}

/// The row of an entry. A disabled one has no connection; an enabled one is
/// matched to its mirror by name.
pub open spec fn row_of(
    entry: RemoteEntry,
    descriptors: Seq<RemoteDescriptor>,
    mirrors: Map<usize, MirrorModel>,
) -> RemoteListRow {
    RemoteListRow {
        entry,
        status: if !entry.enabled {
            RemoteListStatus::Disabled
        } else {
            match first_match(descriptors, called(entry.name@)) {
                Some(d) => if mirrors.contains_key(d.index) {
                    status_of(mirrors[d.index].connection)
                } else {
                    RemoteListStatus::Unknown
                },
                None => RemoteListStatus::Unknown,
            }
        },
    }
}

/// One row per configured entry, in order.
pub open spec fn rows_of(
    entries: Seq<RemoteEntry>,
    descriptors: Seq<RemoteDescriptor>,
    mirrors: Map<usize, MirrorModel>,
) -> Seq<RemoteListRow> {
    entries.map_values(|e: RemoteEntry| row_of(e, descriptors, mirrors))
}

fn connection_status(connection: &ClientConnectionState) -> (r: RemoteListStatus)
    ensures
        r == status_of(connection@),
{
    match connection {
        ClientConnectionState::Connected { negotiated: _ } => RemoteListStatus::Connected,
        ClientConnectionState::Connecting { attempt: _ } => RemoteListStatus::Connecting,
        ClientConnectionState::Stopped { message: _ } => RemoteListStatus::Stopped,
        ClientConnectionState::Offline { attempt: _, last_error: _ } => RemoteListStatus::Offline,
        ClientConnectionState::Incompatible { remedy: _, message: _ } => RemoteListStatus::Offline,
        ClientConnectionState::Disconnected => RemoteListStatus::Unknown,
    }
}

/// The list's rows, from the config plus live connection state.
pub fn remote_list_rows(
    entries: &[RemoteEntry],
    descriptors: &[RemoteDescriptor],
    mirrors: &RemoteMirrors,
) -> (r: Vec<RemoteListRow>)
    requires
        mirrors.wf(),
    ensures
        r@ == rows_of(entries@, descriptors@, mirrors@),
{
    let mut out: Vec<RemoteListRow> = Vec::new();
    let mut i: usize = 0;
    while i < entries.len()
        invariant
            mirrors.wf(),
            i <= entries@.len(),
            out@.len() == i,
            forall|j: int|
                0 <= j < i ==> #[trigger] out@[j] == row_of(
                    entries@[j],
                    descriptors@,
                    mirrors@,
                ),
        decreases entries@.len() - i,
    {
        let entry = &entries[i];
        let status = if !entry.enabled {
            RemoteListStatus::Disabled
        } else {
            match descriptor_called(descriptors, entry.name.as_str()) {
                Some(d) => match mirrors.get(d.index) {
                    Some(mirror) => connection_status(&mirror.connection),
                    None => RemoteListStatus::Unknown,
                },
                None => RemoteListStatus::Unknown,
            }
        };
        out.push(RemoteListRow { entry: entry.copy(), status });
        i = i + 1;
    }
    assert(out@ =~= rows_of(entries@, descriptors@, mirrors@));
    out
}

impl RemoteListStatus {
    pub open spec fn dot_text(self) -> Seq<char> {
        match self {
            RemoteListStatus::Connected => "●"@,
            RemoteListStatus::Connecting => "◐"@,
            RemoteListStatus::Stopped => "◍"@,
            RemoteListStatus::Offline => "○"@,
            RemoteListStatus::Unknown => "○"@,
            RemoteListStatus::Disabled => "·"@,
        }
    }

    pub open spec fn label_text(self) -> Seq<char> {
        match self {
            RemoteListStatus::Connected => "connected"@,
            RemoteListStatus::Connecting => "connecting"@,
            RemoteListStatus::Stopped => "stopped"@,
            RemoteListStatus::Offline => "offline"@,
            RemoteListStatus::Disabled => "disabled"@,
            RemoteListStatus::Unknown => ""@,
        }
    }

    /// The dot, in the chip strip's vocabulary.
    pub fn dot(self) -> (r: &'static str)
        ensures
            r@ == self.dot_text(),
    {
        match self {
            RemoteListStatus::Connected => "●",
            RemoteListStatus::Connecting => "◐",
            RemoteListStatus::Stopped => "◍",
            RemoteListStatus::Offline | RemoteListStatus::Unknown => "○",
            RemoteListStatus::Disabled => "·",
        }
    }

    pub fn label(self) -> (r: &'static str)
        ensures
            r@ == self.label_text(),
    {
        match self {
            RemoteListStatus::Connected => "connected",
            RemoteListStatus::Connecting => "connecting",
            RemoteListStatus::Stopped => "stopped",
            RemoteListStatus::Offline => "offline",
            RemoteListStatus::Disabled => "disabled",
            RemoteListStatus::Unknown => "",
        }
    }
}

/// What a key asks for.
#[derive(Clone, PartialEq, Eq, Debug)]
pub enum RemoteListKeyResult {
    /// Consumed: selection moved, or there was nothing to act on.
    Consumed,
    /// Not handled.
    Ignored,
    /// Move the named entry one slot.
    Reorder(String, MoveDirection),
    /// Flip the named entry's `enabled` flag.
    ToggleEnabled(String),
    /// Open the field dialog on the named entry.
    Edit(String),
    /// Remove the named entry.
    Remove(String),
    /// Start the named remote's server, or stop it if it is running.
    StartStop(String),
    /// Close. Not a revert: every action already took effect.
    Close,
}

/// The mathematical value of an answer.
pub enum ListAnswer {
    Consumed,
    Ignored,
    Reorder(Seq<char>, MoveDirection),
    ToggleEnabled(Seq<char>),
    Edit(Seq<char>),
    Remove(Seq<char>),
    StartStop(Seq<char>),
    Close,
}

impl View for RemoteListKeyResult {
    type V = ListAnswer;

    open spec fn view(&self) -> ListAnswer {
        match *self {
            RemoteListKeyResult::Consumed => ListAnswer::Consumed,
            RemoteListKeyResult::Ignored => ListAnswer::Ignored,
            RemoteListKeyResult::Reorder(n, d) => ListAnswer::Reorder(n@, d),
            RemoteListKeyResult::ToggleEnabled(n) => ListAnswer::ToggleEnabled(n@),
            RemoteListKeyResult::Edit(n) => ListAnswer::Edit(n@),
            RemoteListKeyResult::Remove(n) => ListAnswer::Remove(n@),
            RemoteListKeyResult::StartStop(n) => ListAnswer::StartStop(n@),
            RemoteListKeyResult::Close => ListAnswer::Close,
        }
    }
}

/// A key as the list reads it.
pub enum ListKey {
    Close,
    MoveRow(MoveDirection),
    MoveSelection(MoveDirection),
    First,
    Last,
    Edit,
    Toggle,
    StartStop,
    Remove,
    Nothing,
}

/// Plain arrows (or `k`, `j`) move the selection; with shift they move the
/// selected row.
pub open spec fn list_key(key: TerminalKey) -> ListKey {
    let shifted = key.modifiers.shift;
    match key.code {
        KeyCode::Esc => ListKey::Close,
        KeyCode::Up => if shifted {
            ListKey::MoveRow(MoveDirection::Up)
        } else {
            ListKey::MoveSelection(MoveDirection::Up)
        },
        KeyCode::Down => if shifted {
            ListKey::MoveRow(MoveDirection::Down)
        } else {
            ListKey::MoveSelection(MoveDirection::Down)
        },
        KeyCode::Home => ListKey::First,
        KeyCode::End => ListKey::Last,
        KeyCode::Enter => ListKey::Edit,
        KeyCode::Delete => ListKey::Remove,
        KeyCode::Char(c) => if c == 'q' {
            ListKey::Close
        } else if c == 'k' {
            if shifted {
                ListKey::MoveRow(MoveDirection::Up)
            } else {
                ListKey::MoveSelection(MoveDirection::Up)
            }
        } else if c == 'j' {
            if shifted {
                ListKey::MoveRow(MoveDirection::Down)
            } else {
                ListKey::MoveSelection(MoveDirection::Down)
            }
        } else if c == ' ' {
            ListKey::Toggle
        } else if c == 's' {
            ListKey::StartStop
        } else if c == 'd' && key.modifiers.control {
            ListKey::Remove
        } else {
            ListKey::Nothing
        },
        _ => ListKey::Nothing,
    }
}

/// What the list answers to a key: an action on the selected entry by name,
/// or nothing to act on.
pub open spec fn list_answer(l: ListModel, key: TerminalKey) -> ListAnswer {
    match list_key(key) {
        ListKey::Close => ListAnswer::Close,
        ListKey::MoveSelection(_) => ListAnswer::Consumed,
        ListKey::First => ListAnswer::Consumed,
        ListKey::Last => ListAnswer::Consumed,
        ListKey::Nothing => ListAnswer::Ignored,
        action => match l.selected_name() {
            None => ListAnswer::Consumed,
            Some(name) => match action {
                ListKey::MoveRow(d) => ListAnswer::Reorder(name, d),
                ListKey::Edit => ListAnswer::Edit(name),
                ListKey::Toggle => ListAnswer::ToggleEnabled(name),
                ListKey::StartStop => ListAnswer::StartStop(name),
                _ => ListAnswer::Remove(name),
            },
        },
    }
}

/// The list after a key: only moves of the selection change it, and they
/// clear the error.
pub open spec fn list_moved(l: ListModel, key: TerminalKey) -> ListModel {
    match list_key(key) {
        ListKey::MoveSelection(MoveDirection::Up) => ListModel {
            selected: if l.selected == 0 {
                0
            } else {
                (l.selected - 1) as usize
            },
            error: None,
            ..l
        },
        ListKey::MoveSelection(MoveDirection::Down) => ListModel {
            selected: if l.selected < l.last() {
                (l.selected + 1) as usize
            } else {
                l.last()
            },
            error: None,
            ..l
        },
        ListKey::First => ListModel { selected: 0, error: None, ..l },
        ListKey::Last => ListModel { selected: l.last(), error: None, ..l },
        _ => l,
    }
}

/// Interprets a key for the list.
pub fn remote_list_apply_key(state: &mut RemoteListState, key: TerminalKey) -> (r:
    RemoteListKeyResult)
    ensures
        final(state)@ == list_moved(old(state)@, key),
        r@ == list_answer(old(state)@, key),
{
    let shifted: bool = key.modifiers.shift;
    let name: Option<String> = match state.selected_name() {
        Some(name) => Some(name.to_owned()),
        None => None,
    };
    let last: usize = state.rows.len().saturating_sub(1);
    match key.code {
        KeyCode::Esc | KeyCode::Char('q') => RemoteListKeyResult::Close,
        KeyCode::Up | KeyCode::Char('k') => {
            if shifted {
                return match name {
                    Some(name) => RemoteListKeyResult::Reorder(name, MoveDirection::Up),
                    None => RemoteListKeyResult::Consumed,
                };
            }
            state.error = None;
            state.selected = state.selected.saturating_sub(1);
            RemoteListKeyResult::Consumed
        },
        KeyCode::Down | KeyCode::Char('j') => {
            if shifted {
                return match name {
                    Some(name) => RemoteListKeyResult::Reorder(name, MoveDirection::Down),
                    None => RemoteListKeyResult::Consumed,
                };
            }
            state.error = None;
            state.selected = if state.selected < last {
                state.selected + 1
            } else {
                last
            };
            RemoteListKeyResult::Consumed
        },
        KeyCode::Home => {
            state.error = None;
            state.selected = 0;
            RemoteListKeyResult::Consumed
        },
        KeyCode::End => {
            state.error = None;
            state.selected = last;
            RemoteListKeyResult::Consumed
        },
        KeyCode::Enter => match name {
            Some(name) => RemoteListKeyResult::Edit(name),
            None => RemoteListKeyResult::Consumed,
        },
        KeyCode::Char(' ') => match name {
            Some(name) => RemoteListKeyResult::ToggleEnabled(name),
            None => RemoteListKeyResult::Consumed,
        },
        KeyCode::Char('s') => match name {
            Some(name) => RemoteListKeyResult::StartStop(name),
            None => RemoteListKeyResult::Consumed,
        },
        KeyCode::Delete => match name {
            Some(name) => RemoteListKeyResult::Remove(name),
            None => RemoteListKeyResult::Consumed,
        },
        KeyCode::Char('d') => {
            if key.modifiers.control {
                match name {
                    Some(name) => RemoteListKeyResult::Remove(name),
                    None => RemoteListKeyResult::Consumed,
                }
            } else {
                RemoteListKeyResult::Ignored
            }
        },
        _ => RemoteListKeyResult::Ignored,
    }
}

/// The selection stays on a row, if there is one, whatever key is pressed.
pub proof fn keys_keep_the_selection_on_a_row(l: ListModel, key: TerminalKey)
    requires
        l.selected <= l.last(),
        l.rows.len() <= usize::MAX,
    ensures
        list_moved(l, key).selected <= list_moved(l, key).last(),
        list_moved(l, key).rows == l.rows,
{
}

/// A reload keeps the selection on the entry the user picked, as long as it
/// is still there, and on a row in any case.
pub proof fn reloads_follow_the_name(l: ListModel, rows: Seq<RemoteListRow>)
    requires
        rows.len() <= usize::MAX,
    ensures
        l.reloaded(rows).selected <= l.reloaded(rows).last(),
        l.selected_name() matches Some(name) && first_match(rows, row_called(name)) is Some
            ==> l.reloaded(rows).selected_name() == l.selected_name(),
{
    if let Some(name) = l.selected_name() {
        first_index_props(rows, row_called(name));
    }
}

} // verus!
