//! What keys do in the fleet's dialogs, key by key.
use crate::client_state::fleet_view::{called, RemoteDescriptor};
use crate::client_state::mirror::MirrorModel;
use crate::client_state::remote_edit::{edit_answer, edited, EditModel};
use crate::client_state::remote_list::{
    list_answer, list_moved, row_called, row_of, ListAnswer, ListModel, RemoteListRow,
    RemoteListStatus,
};
use crate::client_state::remote_start::start_answer;
use crate::fleet::config::{MoveDirection, RemoteEntry};
use crate::input::{KeyCode, TerminalKey};
use crate::seqs::{first_index_is, first_index_props};
use vstd::prelude::*;

verus! {

/// The start prompt: Enter and `y` start, Esc, `q` and `n` dismiss, and while
/// a start is in flight only Esc and `q` do anything. With control held no
/// key does.
pub proof fn the_start_prompt_reads_keys(starting: bool, key: TerminalKey)
    ensures
        start_answer(starting, key) is Start <==> !starting && !key.modifiers.control && (key.code
            == KeyCode::Enter || key.code == KeyCode::Char('y') || key.code == KeyCode::Char('Y')),
        start_answer(starting, key) is Dismiss <==> !key.modifiers.control && (key.code
            == KeyCode::Esc || key.code == KeyCode::Char('q') || (!starting && (key.code
            == KeyCode::Char('n') || key.code == KeyCode::Char('N')))),
{
}

/// The dialog: Esc cancels, Enter submits, control with `d` removes an entry
/// that exists, and nothing else does.
pub proof fn the_dialog_reads_keys(d: EditModel, key: TerminalKey)
    ensures
        edit_answer(d, key) is Cancel <==> key.code == KeyCode::Esc,
        edit_answer(d, key) is Submit <==> key.code == KeyCode::Enter,
        edit_answer(d, key) is Remove <==> key.code == KeyCode::Char('d') && key.modifiers.control
            && d.original_name is Some,
{
}

/// Typing appends to the focused field and Backspace takes its last
/// character; the other fields and the entry's identity stay.
pub proof fn typing_edits_the_focused_field(d: EditModel, key: TerminalKey, c: char)
    requires
        key.code == KeyCode::Char(c) && !key.modifiers.control || key.code == KeyCode::Backspace,
    ensures
        ({
            let r = edited(d, key);
            let typed = |t: Seq<char>|
                if key.code == KeyCode::Backspace {
                    if t.len() > 0 {
                        t.take(t.len() - 1)
                    } else {
                        t
                    }
                } else {
                    t.push(c)
                };
            &&& r.name == if d.focused_field == 0 {
                typed(d.name)
            } else {
                d.name
            }
            &&& r.target == if d.focused_field == 1 {
                typed(d.target)
            } else {
                d.target
            }
            &&& r.session == if d.focused_field >= 2 {
                typed(d.session)
            } else {
                d.session
            }
            &&& r.error is None
            &&& r.focused_field == d.focused_field
            &&& r.original_name == d.original_name && r.enabled == d.enabled && r.hue == d.hue
        }),
{
    let t = if d.focused_field == 0 {
        d.name
    } else if d.focused_field == 1 {
        d.target
    } else {
        d.session
    };
    if t.len() > 0 {
        assert(t.drop_last() =~= t.take(t.len() - 1));
    }
}

/// Tab and Down go from field to field and round, BackTab and Up the other
/// way; the text stays.
pub proof fn moving_between_fields(d: EditModel, key: TerminalKey)
    requires
        d.focused_field <= 2,
    ensures
        ({
            let r = edited(d, key);
            &&& key.code == KeyCode::Tab || key.code == KeyCode::Down ==> r == (EditModel {
                focused_field: if d.focused_field == 2 {
                    0
                } else {
                    (d.focused_field + 1) as usize
                },
                ..d
            })
            &&& key.code == KeyCode::BackTab || key.code == KeyCode::Up ==> r == (EditModel {
                focused_field: if d.focused_field == 0 {
                    2
                } else {
                    (d.focused_field - 1) as usize
                },
                ..d
            })
            &&& key.code == KeyCode::Esc || key.code == KeyCode::Enter || key.modifiers.control
                && key.code is Char ==> r == d
        }),
{
}

/// What an opened dialog holds: a blank one is enabled and empty, one for an
/// entry shows the entry. An empty session means the default one, an empty
/// target none.
pub proof fn dialogs_show_their_entry(entry: RemoteEntry, d: EditModel)
    ensures
        ({
            let r = EditModel::of_entry(entry);
            &&& r.original_name == Some(entry.name@)
            &&& r.name == entry.name@
            &&& entry.target matches Some(t) ==> r.target == t@
            &&& entry.target is None ==> r.target.len() == 0
            &&& r.session == entry.session@
            &&& r.enabled == entry.enabled && r.hue == entry.hue
            &&& r.focused_field == 0 && r.error is None
        }),
        ({
            let r = EditModel::blank();
            &&& r.original_name is None && r.name.len() == 0 && r.target.len() == 0
                && r.session.len() == 0
            &&& r.enabled && r.hue is None && r.focused_field == 0 && r.error is None
        }),
        d.session.len() == 0 ==> d.session_name() == "default"@,
        d.target.len() == 0 ==> d.target_name() is None,
{
}

/// The list's keys: what is asked for, and of which entry.
pub proof fn the_list_reads_keys(l: ListModel, key: TerminalKey)
    ensures
        ({
            let r = list_answer(l, key);
            let named = l.selected < l.rows.len();
            let name = l.rows[l.selected as int].entry.name@;
            let up = key.code == KeyCode::Up || key.code == KeyCode::Char('k');
            let down = key.code == KeyCode::Down || key.code == KeyCode::Char('j');
            &&& key.code == KeyCode::Esc || key.code == KeyCode::Char('q') <==> r is Close
            &&& named && key.modifiers.shift && up ==> r == ListAnswer::Reorder(
                name,
                MoveDirection::Up,
            )
            &&& named && key.modifiers.shift && down ==> r == ListAnswer::Reorder(
                name,
                MoveDirection::Down,
            )
            &&& !key.modifiers.shift && (up || down) ==> r is Consumed
            &&& named && key.code == KeyCode::Enter ==> r == ListAnswer::Edit(name)
            &&& named && key.code == KeyCode::Char(' ') ==> r == ListAnswer::ToggleEnabled(name)
            &&& named && key.code == KeyCode::Char('s') ==> r == ListAnswer::StartStop(name)
            &&& named && (key.code == KeyCode::Delete || key.code == KeyCode::Char('d')
                && key.modifiers.control) ==> r == ListAnswer::Remove(name)
            &&& !named ==> r is Close || r is Consumed || r is Ignored
        }),
{
}

/// The list's selection: one row at a time with the arrows, never off the
/// list, to its ends with Home and End. Other keys leave the list as it is.
pub proof fn the_selection_moves(l: ListModel, key: TerminalKey)
    requires
        l.selected < l.rows.len(),
        l.rows.len() <= usize::MAX,
    ensures
        ({
            let r = list_moved(l, key);
            let up = (key.code == KeyCode::Up || key.code == KeyCode::Char('k'))
                && !key.modifiers.shift;
            let down = (key.code == KeyCode::Down || key.code == KeyCode::Char('j'))
                && !key.modifiers.shift;
            &&& r.rows == l.rows
            &&& up ==> r.error is None && r.selected == if l.selected > 0 {
                l.selected - 1
            } else {
                0
            }
            &&& down ==> r.error is None && r.selected == if l.selected + 1 < l.rows.len() {
                l.selected + 1
            } else {
                l.selected as int
            }
            &&& key.code == KeyCode::Home ==> r.selected == 0 && r.error is None
            &&& key.code == KeyCode::End ==> r.selected == l.rows.len() - 1 && r.error is None
            &&& !up && !down && key.code != KeyCode::Home && key.code != KeyCode::End ==> r == l
        }),
{
}

/// A reloaded list keeps the selection on the entry it was on, wherever that
/// went; where it is gone, on the nearest row there is.
pub proof fn reloads_keep_the_selected_entry(
    l: ListModel,
    rows: Seq<RemoteListRow>,
    at: int,
)
    requires
        l.selected < l.rows.len(),
        rows.len() <= usize::MAX,
    ensures
        ({
            let name = l.rows[l.selected as int].entry.name@;
            let r = l.reloaded(rows);
            &&& r.rows == rows && r.error == l.error
            &&& 0 <= at < rows.len() && rows[at].entry.name@ == name ==> r.selected < rows.len()
                && rows[r.selected as int].entry.name@ == name
            &&& (forall|i: int| 0 <= i < rows.len() ==> (#[trigger] rows[i]).entry.name@ != name)
                && rows.len() > 0 ==> r.selected == if l.selected < rows.len() {
                l.selected as int
            } else {
                rows.len() - 1
            }
        }),
{
    let name = l.rows[l.selected as int].entry.name@;
    first_index_props(rows, row_called(name));
    if 0 <= at < rows.len() && rows[at].entry.name@ == name {
        assert(row_called(name)(rows[at]));
    }
    if forall|i: int| 0 <= i < rows.len() ==> (#[trigger] rows[i]).entry.name@ != name {
        first_index_is(rows, row_called(name), rows.len() as int);
    }
}

/// A row shows its entry and its mirror's connection; a disabled entry shows
/// as disabled, whatever its mirror says.
pub proof fn rows_show_their_connection(
    entry: RemoteEntry,
    descriptors: Seq<RemoteDescriptor>,
    mirrors: Map<usize, MirrorModel>,
    at: int,
)
    requires
        0 <= at < descriptors.len(),
        descriptors[at].name@ == entry.name@,
        forall|j: int| 0 <= j < at ==> (#[trigger] descriptors[j]).name@ != entry.name@,
        mirrors.contains_key(descriptors[at].index),
    ensures
        ({
            let r = row_of(entry, descriptors, mirrors);
            let connection = mirrors[descriptors[at].index].connection;
            &&& r.entry == entry
            &&& !entry.enabled ==> r.status is Disabled
            &&& entry.enabled ==> {
                &&& connection is Connected <==> r.status is Connected
                &&& connection is Connecting <==> r.status is Connecting
                &&& connection is Stopped <==> r.status is Stopped
                &&& connection is Offline || connection is Incompatible <==> r.status is Offline
                &&& connection is Disconnected <==> r.status is Unknown
            }
        }),
{
    first_index_is(descriptors, called(entry.name@), at);
}

/// What a status is shown as.
pub proof fn statuses_are_shown(s: RemoteListStatus)
    ensures
        s is Connected ==> s.dot_text() == "●"@ && s.label_text() == "connected"@,
        s is Connecting ==> s.dot_text() == "◐"@ && s.label_text() == "connecting"@,
        s is Stopped ==> s.dot_text() == "◍"@ && s.label_text() == "stopped"@,
        s is Offline ==> s.dot_text() == "○"@ && s.label_text() == "offline"@,
        s is Disabled ==> s.dot_text() == "·"@ && s.label_text() == "disabled"@,
        s is Unknown ==> s.dot_text() == "○"@ && s.label_text() == ""@,
{
}

} // verus!
