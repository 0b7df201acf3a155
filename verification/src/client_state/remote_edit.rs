//! The add/edit-remote dialog: its fields and what keys do to them.
use crate::fleet::config::{
    name_refusal, valid_name, validate_entry, RemoteEntry, DEFAULT_SESSION_NAME,
};
use crate::input::{KeyCode, TerminalKey};
use crate::text::{copy_opt, opt_view, trim, trimmed};
use vstd::prelude::*;

verus! {

/// Dialog fields, in focus order.
pub const REMOTE_EDIT_FIELDS: usize = 3;

/// State of the add/edit-remote dialog.
#[derive(Clone, PartialEq, Eq, Debug)]
pub struct RemoteEditState {
    /// The remote being edited; absent when adding.
    pub original_name: Option<String>,
    pub name: String,
    pub target: String,
    pub session: String,
    /// 0 = name, 1 = target, 2 = session.
    pub focused_field: usize,
    pub error: Option<String>,
    /// Carried through untouched: a field edit never re-enables a remote.
    pub enabled: bool,
    /// Carried through untouched: a field edit never recolours a remote.
    pub hue: Option<usize>,
}

/// The mathematical value of a dialog.
pub struct EditModel {
    pub original_name: Option<Seq<char>>,
    pub name: Seq<char>,
    pub target: Seq<char>,
    pub session: Seq<char>,
    pub focused_field: usize,
    pub error: Option<Seq<char>>,
    pub enabled: bool,
    pub hue: Option<usize>,
}

impl View for RemoteEditState {
    type V = EditModel;

    open spec fn view(&self) -> EditModel {
        EditModel {
            original_name: opt_view(self.original_name),
            name: self.name@,
            target: self.target@,
            session: self.session@,
            focused_field: self.focused_field,
            error: opt_view(self.error),
            enabled: self.enabled,
            hue: self.hue,
        }
    }
}

impl EditModel {
    pub open spec fn blank() -> EditModel {
        EditModel {
            original_name: None,
            name: Seq::empty(),
            target: Seq::empty(),
            session: Seq::empty(),
            focused_field: 0,
            error: None,
            enabled: true,
            hue: None,
        }
    }

    pub open spec fn of_entry(entry: RemoteEntry) -> EditModel {
        EditModel {
            original_name: Some(entry.name@),
            name: entry.name@,
            target: match entry.target {
                Some(t) => t@,
                None => Seq::empty(),
            },
            session: entry.session@,
            focused_field: 0,
            error: None,
            enabled: entry.enabled,
            hue: entry.hue,
        }
    }

    /// The text of the focused field.
    pub open spec fn input(self) -> Seq<char> {
        if self.focused_field == 0 {
            self.name
        } else if self.focused_field == 1 {
            self.target
        } else {
            self.session
        }
    }

    /// The dialog with the focused field holding `text`.
    pub open spec fn with_input(self, text: Seq<char>) -> EditModel {
        if self.focused_field == 0 {
            EditModel { name: text, ..self }
        } else if self.focused_field == 1 {
            EditModel { target: text, ..self }
        } else {
            EditModel { session: text, ..self }
        }
    }

    /// The session the dialog names; an empty field means the default one.
    pub open spec fn session_name(self) -> Seq<char> {
        if trimmed(self.session).len() == 0 {
            DEFAULT_SESSION_NAME@
        } else {
            trimmed(self.session)
        }
    }

    /// The target the dialog names; an empty field means a local runtime.
    pub open spec fn target_name(self) -> Option<Seq<char>> {
        if trimmed(self.target).len() == 0 {
            None
        } else {
            Some(trimmed(self.target))
        }
    }
}

impl Default for RemoteEditState {
    /// A dialog with no entry behind it is an add, and a remote just added is
    /// enabled.
    fn default() -> (r: RemoteEditState)
        ensures
            r@ == EditModel::blank(),
    {
        RemoteEditState {
            original_name: None,
            name: String::new(),
            target: String::new(),
            session: String::new(),
            focused_field: 0,
            error: None,
            enabled: true,
            hue: None,
        }
    }
}

impl RemoteEditState {
    /// A dialog for a new remote, with the default session filled in.
    pub fn add() -> (r: RemoteEditState)
        ensures
            r@ == (EditModel { session: DEFAULT_SESSION_NAME@, ..EditModel::blank() }),
    {
        RemoteEditState {
            original_name: None,
            name: String::new(),
            target: String::new(),
            session: DEFAULT_SESSION_NAME.to_owned(),
            focused_field: 0,
            error: None,
            enabled: true,
            hue: None,
        }
    }

    /// A dialog for an existing remote.
    pub fn edit(entry: &RemoteEntry) -> (r: RemoteEditState)
        ensures
            r@ == EditModel::of_entry(*entry),
    {
        RemoteEditState {
            original_name: Some(entry.name.clone()),
            name: entry.name.clone(),
            target: match &entry.target {
                Some(t) => t.clone(),
                None => String::new(),
            },
            session: entry.session.clone(),
            focused_field: 0,
            error: None,
            enabled: entry.enabled,
            hue: entry.hue,
        }
    }

    pub fn is_edit(&self) -> (r: bool)
        ensures
            r == (self@.original_name is Some),
    {
        self.original_name.is_some()
    }

    fn focused_input(&mut self) -> (r: &mut String)
        ensures
            r@ == old(self)@.input(),
            final(self)@ == old(self)@.with_input(final(r)@),
    {
        if self.focused_field == 0 {
            &mut self.name
        } else if self.focused_field == 1 {
            &mut self.target
        } else {
            &mut self.session
        }
    }

    /// The entry this dialog describes, validated.
    pub fn entry(&self) -> (r: Result<RemoteEntry, String>)
        ensures
            match r {
                Ok(e) => {
                    &&& valid_name(trimmed(self@.name))
                    &&& e.name@ == trimmed(self@.name)
                    &&& opt_view(e.target) == self@.target_name()
                    &&& e.session@ == self@.session_name()
                    &&& e.enabled == self@.enabled
                    &&& e.hue == self@.hue
                },
                Err(e) => !valid_name(trimmed(self@.name)) && e@ == name_refusal(
                    trimmed(self@.name),
                ),
            },
    {
        let target = trim(self.target.as_str());
        let session = trim(self.session.as_str());
        let entry = RemoteEntry {
            name: trim(self.name.as_str()),
            target: if target.as_str().is_empty() {
                None
            } else {
                Some(target)
            },
            session: if session.as_str().is_empty() {
                DEFAULT_SESSION_NAME.to_owned()
            } else {
                session
            },
            enabled: self.enabled,
            hue: self.hue,
        };
        match validate_entry(&entry) {
            Ok(_) => Ok(entry),
            Err(e) => Err(e),
        }
    }

    /// A copy of the dialog's original name.
    pub fn original(&self) -> (r: Option<String>)
        ensures
            opt_view(r) == self@.original_name,
    {
        copy_opt(&self.original_name)
    }
}

/// What a key did to the dialog.
#[derive(Clone, Copy, PartialEq, Eq, Structural, Debug)]
pub enum RemoteEditKeyResult {
    /// Consumed: an edit, a focus move, or nothing.
    Edited,
    /// Enter: validate and save.
    Submit,
    /// Esc: close without saving.
    Cancel,
    /// Ctrl-d on an existing remote: remove it.
    Remove,
}

/// What the dialog answers to a key.
pub open spec fn edit_answer(d: EditModel, key: TerminalKey) -> RemoteEditKeyResult {
    if key.code == KeyCode::Esc {
        RemoteEditKeyResult::Cancel
    } else if key.code == KeyCode::Enter {
        RemoteEditKeyResult::Submit
    } else if key.code == KeyCode::Char('d') && key.modifiers.control && d.original_name is Some {
        RemoteEditKeyResult::Remove
    } else {
        RemoteEditKeyResult::Edited
    }
}

/// The dialog after a key: Tab and Down move the focus on, BackTab and Up
/// back, Backspace takes a character, a plain character adds one. Both edits
/// clear the error.
pub open spec fn edited(d: EditModel, key: TerminalKey) -> EditModel {
    match key.code {
        KeyCode::Tab | KeyCode::Down => EditModel {
            focused_field: ((d.focused_field + 1) % 3) as usize,
            ..d
        },
        KeyCode::BackTab | KeyCode::Up => EditModel {
            focused_field: ((d.focused_field + 2) % 3) as usize,
            ..d
        },
        KeyCode::Backspace => EditModel {
            error: None,
            ..d.with_input(
                if d.input().len() > 0 {
                    d.input().drop_last()
                } else {
                    d.input()
                },
            )
        },
        KeyCode::Char(c) => if key.modifiers.control {
            d
        } else {
            EditModel { error: None, ..d.with_input(d.input().push(c)) }
        },
        _ => d,
    }
}

/// Interprets a key for the dialog.
pub fn remote_edit_apply_key(state: &mut RemoteEditState, key: TerminalKey) -> (r:
    RemoteEditKeyResult)
    requires
        old(state)@.focused_field < REMOTE_EDIT_FIELDS,
    ensures
        final(state)@ == edited(old(state)@, key),
        final(state)@.focused_field < REMOTE_EDIT_FIELDS,
        r == edit_answer(old(state)@, key),
{
    match key.code {
        KeyCode::Esc => RemoteEditKeyResult::Cancel,
        KeyCode::Enter => RemoteEditKeyResult::Submit,
        KeyCode::Tab | KeyCode::Down => {
            state.focused_field = (state.focused_field + 1) % REMOTE_EDIT_FIELDS;
            RemoteEditKeyResult::Edited
        },
        KeyCode::BackTab | KeyCode::Up => {
            state.focused_field = (state.focused_field + REMOTE_EDIT_FIELDS - 1)
                % REMOTE_EDIT_FIELDS;
            RemoteEditKeyResult::Edited
        },
        KeyCode::Backspace => {
            state.focused_input().pop();
            state.error = None;
            RemoteEditKeyResult::Edited
        },
        KeyCode::Char(c) => {
            if key.modifiers.control {
                if c == 'd' && state.is_edit() {
                    return RemoteEditKeyResult::Remove;
                }
            } else {
                state.focused_input().push(c);
                state.error = None;
            }
            RemoteEditKeyResult::Edited
        },
        _ => RemoteEditKeyResult::Edited,
    }
}

/// No key changes whether the remote is enabled, its hue, or which remote is
/// being edited.
pub proof fn keys_keep_identity(d: EditModel, key: TerminalKey)
    ensures
        edited(d, key).enabled == d.enabled,
        edited(d, key).hue == d.hue,
        edited(d, key).original_name == d.original_name,
{
}

/// Typing a character and taking it back restores the field.
pub proof fn backspace_undoes_typing(d: EditModel, c: char, typed: TerminalKey, back: TerminalKey)
    requires
        typed.code == KeyCode::Char(c),
        !typed.modifiers.control,
        back.code == KeyCode::Backspace,
    ensures
        edited(edited(d, typed), back) == (EditModel { error: None, ..d }),
{
    assert(d.input().push(c).drop_last() =~= d.input());
}

/// Moving the focus on and back stays on the field.
pub proof fn focus_moves_undo(d: EditModel, on: TerminalKey, back: TerminalKey)
    requires
        d.focused_field < REMOTE_EDIT_FIELDS,
        on.code == KeyCode::Tab || on.code == KeyCode::Down,
        back.code == KeyCode::BackTab || back.code == KeyCode::Up,
    ensures
        edited(edited(d, on), back) == d,
        edited(edited(d, back), on) == d,
{
}

} // verus!
