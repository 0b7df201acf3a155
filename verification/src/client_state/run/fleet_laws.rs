//! What changes of the fleet do to the state: edits, starts and stops.
use crate::client_state::fleet_view::{
    at_index, called, chips_of, descriptors_of, RemoteDescriptor, SelectionModel,
};
use crate::client_state::mirror::MirrorModel;
use crate::client_state::remote_list::{row_called, RemoteListKeyResult};
use crate::client_state::run::fleet::{
    list_step, reconciled, removal_of, start_step, start_stop, submit_step, torn_down, unchanged, ConfigEdit,
    ListStep, ServerOrder,
};
use crate::client_state::run::state::LoopModel;
use crate::client_state::session::LinkModel;
use crate::fleet::config::{valid_name, RemoteEntry};
use crate::seqs::{any, filter_props, first_index_is};
use crate::text::{opt_view, trimmed};
use vstd::prelude::*;

verus! {

/// The remote stands at that place of the list, and no earlier.
pub open spec fn listed(descriptors: Seq<RemoteDescriptor>, remote: usize, at: int) -> bool {
    &&& 0 <= at < descriptors.len()
    &&& descriptors[at].index == remote
    &&& forall|j: int| 0 <= j < at ==> (#[trigger] descriptors[j]).index != remote
}

/// What is ordered of a server: at the target and for the session that the
/// remote is configured with, by the program it names or `herdr`.
pub open spec fn is_order(o: ServerOrder, d: RemoteDescriptor) -> bool {
    &&& o.remote == d.index
    &&& d.target matches Some(t) && o.target == t
    &&& o.session == d.session
    &&& d.program matches Some(p) ==> o.program@ == p@
    &&& d.program is None ==> o.program@ == "herdr"@
}

/// A start that is approved orders the server of the prompt's remote to start
/// and marks the prompt, once. A local remote has nothing to start: its
/// prompt closes.
pub proof fn approved_starts_are_ordered(
    was: LoopModel,
    now: LoopModel,
    order: Option<ServerOrder>,
    at: int,
)
    requires
        start_step(was, now, order),
        was.chrome.remote_start is Some,
        listed(was.descriptors, was.chrome.remote_start->Some_0.remote, at),
    ensures
        ({
            let p = was.chrome.remote_start->Some_0;
            let d = was.descriptors[at];
            &&& p.starting ==> order is None && now == was
            &&& !p.starting && d.target is Some ==> {
                &&& order matches Some(o) && is_order(o, d)
                &&& now.chrome.remote_start matches Some(q) && q.starting && q.error is None
                    && q.remote == p.remote && q.name == p.name && q.status == p.status
                &&& now.links == was.links && now.mirrors == was.mirrors
            }
            &&& !p.starting && d.target is None ==> order is None && now.chrome.remote_start is None
                && now.links == was.links
        }),
{
    first_index_is(was.descriptors, at_index(was.chrome.remote_start->Some_0.remote), at);
}

/// In the list, a remote that runs is ordered to stop, one that is stopped is
/// offered its start, a local one says how it stops, a disabled one that it
/// is disabled.
pub proof fn listed_remotes_start_and_stop(
    was: LoopModel,
    now: LoopModel,
    name: Seq<char>,
    order: Option<ServerOrder>,
    at: int,
)
    requires
        start_stop(was, now, name, order),
        crate::client_state::fleet_view::in_place(was.descriptors),
    ensures
        0 <= at < was.descriptors.len() && was.descriptors[at].name@ == name && (forall|j: int|
            0 <= j < at ==> (#[trigger] was.descriptors[j]).name@ != name) ==> {
            let d = was.descriptors[at];
            let running = was.mirrors.contains_key(d.index) && !(
            was.mirrors[d.index].connection is Stopped);
            &&& running && d.target is Some ==> (order matches Some(o) && is_order(o, d)) && now
                == was
            &&& running && d.target is None ==> order is None && (
            was.chrome.remote_list matches Some(_) ==> (now.chrome.remote_list matches Some(l)
                && l.error == Some("a local runtime stops when its last space closes"@)))
            &&& !running ==> order is None && (now.chrome.remote_start matches Some(p) && p.remote
                == d.index && p.name == name && p.status == name
                + ": no server running; start it with `herdr remote start "@ + name + "`"@
                && !p.starting && p.error is None)
        },
        (forall|j: int| 0 <= j < was.descriptors.len() ==> (#[trigger] was.descriptors[j]).name@
            != name) ==> order is None && (was.chrome.remote_list matches Some(_) ==> (
        now.chrome.remote_list matches Some(l) && l.error == Some(
            "remote '"@ + name + "' is disabled"@,
        ))),
{
    let all = was.descriptors;
    if 0 <= at < all.len() && all[at].name@ == name && (forall|j: int|
        0 <= j < at ==> (#[trigger] all[j]).name@ != name) {
        first_index_is(all, called(name), at);
        assert forall|j: int| 0 <= j < at implies (#[trigger] all[j]).index != all[at].index by {
            assert(all[at].index == at);
        }
        first_index_is(all, at_index(all[at].index), at);
    }
    if forall|j: int| 0 <= j < all.len() ==> (#[trigger] all[j]).name@ != name {
        first_index_is(all, called(name), all.len() as int);
    }
}

/// A submitted dialog saves the entry it shows, trimmed, under the name it
/// was opened for; a name that cannot be is refused with the reason, and
/// nothing is saved.
pub proof fn dialogs_save_what_they_show(was: LoopModel, now: LoopModel, edit: Option<ConfigEdit>)
    requires
        submit_step(was, now, edit),
        was.chrome.remote_edit is Some,
    ensures
        ({
            let d = was.chrome.remote_edit->Some_0;
            let name = trimmed(d.name);
            &&& valid_name(name) ==> now == was && (edit matches Some(
                ConfigEdit::Save { original, entry },
            ) && {
                &&& opt_view(original) == d.original_name
                &&& entry.name@ == name
                &&& trimmed(d.target).len() == 0 ==> entry.target is None
                &&& trimmed(d.target).len() > 0 ==> (entry.target matches Some(t) && t@ == trimmed(
                    d.target,
                ))
                &&& trimmed(d.session).len() == 0 ==> entry.session@ == "default"@
                &&& trimmed(d.session).len() > 0 ==> entry.session@ == trimmed(d.session)
                &&& entry.enabled == d.enabled
                &&& entry.hue == d.hue
            })
            &&& !valid_name(name) ==> edit is None && (now.chrome.remote_edit matches Some(r)
                && r.error is Some && r.name == d.name && r.target == d.target && r.session
                == d.session)
            &&& name.len() == 0 ==> (now.chrome.remote_edit matches Some(r) && r.error == Some(
                "remote name must not be empty"@,
            ))
        }),
{
}

/// An action of the list becomes the edit it names, of the entry it names;
/// editing opens the dialog on that entry, closing closes the list.
pub proof fn list_actions_are_carried_out(
    was: LoopModel,
    now: LoopModel,
    action: RemoteListKeyResult,
    step: ListStep,
    at: int,
)
    requires
        list_step(was, now, action, step),
        was.chrome.remote_list is Some,
    ensures
        action matches RemoteListKeyResult::Reorder(name, direction) ==> now == was && (
        step matches ListStep::Edit(ConfigEdit::Reorder { name: n, direction: d }) && n == name && d
            == direction),
        action matches RemoteListKeyResult::ToggleEnabled(name) ==> now == was && (
        step matches ListStep::Edit(ConfigEdit::ToggleEnabled { name: n }) && n == name),
        action matches RemoteListKeyResult::Remove(name) ==> now == was && (
        step matches ListStep::Edit(ConfigEdit::Remove { name: n }) && n == name),
        action is Close ==> now.chrome.remote_list is None && step is Nothing,
        action is Consumed || action is Ignored ==> now == was && step is Nothing,
        ({
            let rows = was.chrome.remote_list->Some_0.rows;
            (action matches RemoteListKeyResult::Edit(name) && 0 <= at < rows.len()
                && rows[at].entry.name@ == name@ && (forall|j: int|
                0 <= j < at ==> (#[trigger] rows[j]).entry.name@ != name@)) ==> step is Nothing && (
            now.chrome.remote_edit matches Some(d) && d.original_name == Some(
                rows[at].entry.name@,
            ) && d.name == rows[at].entry.name@ && d.session == rows[at].entry.session@ && d.enabled
                == rows[at].entry.enabled)
        }),
{
    let rows = was.chrome.remote_list->Some_0.rows;
    if let RemoteListKeyResult::Edit(name) = action {
        if 0 <= at < rows.len() && rows[at].entry.name@ == name@ && (forall|j: int|
            0 <= j < at ==> (#[trigger] rows[j]).entry.name@ != name@) {
            first_index_is(rows, row_called(name@), at);
        }
    }
}

/// A server that was started is connected to at once: its prompt and the
/// status line are gone, its link is due now.
pub proof fn started_servers_are_connected_to(m: LoopModel, remote: usize, now: u64, other: usize)
    requires
        m.mirrors.contains_key(remote),
        other != remote,
    ensures
        ({
            let r = m.started(remote, now);
            &&& r.chrome.remote_start is None
            &&& r.chrome.connection_status is None
            &&& r.links.contains_key(remote) && r.links[remote] == (LinkModel::Down {
                retry_at: now,
            })
            &&& r.mirrors[remote].connection is Disconnected
            &&& r.mirrors[remote].name == m.mirrors[remote].name
            &&& m.mirrors.contains_key(other) ==> r.mirrors[other] == m.mirrors[other]
            &&& m.links.contains_key(other) ==> r.links[other] == m.links[other]
        }),
{
}

/// The outcome of a start counts for the remote of the open prompt alone: a
/// success connects to it, a failure is shown in the prompt, which may be
/// answered again.
pub proof fn starts_are_reported(
    m: LoopModel,
    remote: usize,
    error: String,
    now: u64,
)
    ensures
        m.chrome.remote_start is None ==> m.start_reported(remote, Ok(()), now) == m,
        m.chrome.remote_start matches Some(p) ==> (p.remote != remote ==> m.start_reported(
            remote,
            Ok(()),
            now,
        ) == m && m.start_reported(remote, Err(error), now) == m),
        m.chrome.remote_start matches Some(p) ==> (p.remote == remote ==> {
            &&& m.start_reported(remote, Ok(()), now).chrome.remote_start is None
            &&& m.start_reported(remote, Ok(()), now).links[remote] == (LinkModel::Down {
                retry_at: now,
            })
            &&& m.start_reported(remote, Err(error), now).chrome.remote_start matches Some(q)
                && !q.starting && q.error == Some(error@) && q.remote == remote && q.name == p.name
                && q.status == p.status
            &&& m.start_reported(remote, Err(error), now).links == m.links
        }),
{
}

/// A changed config: the remotes are the enabled entries in their order. One
/// that was there under the same number, name, target and session keeps its
/// link and mirror; every other starts over, due at once and empty.
pub proof fn configs_are_followed(
    was: LoopModel,
    now: LoopModel,
    entries: Seq<RemoteEntry>,
    time: u64,
    i: int,
)
    requires
        reconciled(was, now, entries, time),
        crate::client_state::fleet_view::in_place(was.descriptors),
        0 <= i < entries.filter(|e: RemoteEntry| e.enabled).len(),
        i <= usize::MAX,
    ensures
        ({
            let on = entries.filter(|e: RemoteEntry| e.enabled);
            let index = i as usize;
            let d = now.descriptors[i];
            let kept = i < was.descriptors.len() && was.descriptors[i].name@ == on[i].name@
                && opt_view(was.descriptors[i].target) == opt_view(on[i].target)
                && was.descriptors[i].session@ == on[i].session@;
            &&& now.descriptors.len() == on.len()
            &&& d.index == i && d.name == on[i].name && d.target == on[i].target && d.session
                == on[i].session && d.hue_index == i
            &&& kept && was.links.contains_key(index) ==> now.links.contains_key(index)
                && now.links[index] == was.links[index]
            &&& kept && was.mirrors.contains_key(index) ==> now.mirrors.contains_key(index)
                && now.mirrors[index] == was.mirrors[index]
            &&& !kept && i < was.descriptors.len() ==> now.links.contains_key(index)
                && now.links[index] == (LinkModel::Down { retry_at: time })
                && now.mirrors.contains_key(index) && now.mirrors[index].name == on[i].name@
                && now.mirrors[index].connection is Disconnected
                && now.mirrors[index].catalog.panes.len() == 0
            &&& now.app == was.app && now.ui == was.ui
        }),
{
    let on = entries.filter(|e: RemoteEntry| e.enabled);
    let list = descriptors_of(entries);
    assert(crate::fleet::config::entry_enabled() =~= (|e: RemoteEntry| e.enabled));
    let index = i as usize;
    assert(list[i].index == i);
    assert(at_index(index)(list[i]));
    assert(any(list, at_index(index)));
    assert forall|j: int| 0 <= j < i implies !at_index(index)(#[trigger] list[j]) by {
        assert(list[j].index == j as usize);
    }
    first_index_is(list, at_index(index), i);
    assert(now.links.contains_key(index) == (crate::client_state::run::fleet::link_after(
        was,
        list,
        index,
        time,
    ) is Some));
    assert(now.mirrors.contains_key(index) == (crate::client_state::run::fleet::mirror_after(
        was,
        list,
        index,
    ) is Some));
    assert(list[i] == crate::client_state::fleet_view::descriptor_of(on[i], index));
    if i < was.descriptors.len() {
        assert(was.descriptors[i].index == i);
        if !unchanged(was.descriptors[i], list) {
            assert(torn_down(was.descriptors, list, index));
        }
    }
    if torn_down(was.descriptors, list, index) {
        let k = choose|k: int|
            0 <= k < was.descriptors.len() && (#[trigger] was.descriptors[k]).index == index
                && !unchanged(was.descriptors[k], list);
        assert(k == i);
    }
}

/// A chip shows its remote's name, whether it is in view, and its connection.
pub proof fn chips_show_their_remote(
    mirrors: Map<usize, MirrorModel>,
    selection: SelectionModel,
    descriptors: Seq<RemoteDescriptor>,
    i: int,
)
    requires
        0 <= i < descriptors.len(),
    ensures
        ({
            let d = descriptors[i];
            let chips = chips_of(mirrors, selection, descriptors);
            &&& chips.len() == descriptors.len()
            &&& chips[i].name == d.name && chips[i].hue_index == d.hue_index
            &&& chips[i].in_view <==> !selection.hidden.contains(d.index)
            &&& mirrors.contains_key(d.index) ==> {
                let c = mirrors[d.index].connection;
                &&& c is Connected <==> chips[i].connection is Connected
                &&& c is Connecting <==> chips[i].connection is Connecting
                &&& c is Stopped <==> chips[i].connection is Stopped
                &&& c is Incompatible <==> chips[i].connection is Incompatible
            }
            &&& !mirrors.contains_key(d.index) ==> chips[i].connection is Offline
        }),
{
}

/// The remotes in view are those not hidden, in order. The focus is the
/// focused remote where it is in view, else the first in view, else the head.
pub proof fn the_view_leaves_the_hidden_out(
    s: SelectionModel,
    descriptors: Seq<RemoteDescriptor>,
    d: RemoteDescriptor,
)
    ensures
        s.in_view(descriptors).contains(d) <==> descriptors.contains(d) && !s.hidden.contains(
            d.index,
        ),
        descriptors.contains(d) && d.index == s.focused_remote && !s.hidden.contains(d.index)
            ==> s.effective_focus(descriptors) == d.index,
        s.hidden.contains(s.focused_remote) && s.in_view(descriptors).len() > 0
            ==> s.effective_focus(descriptors) == s.in_view(descriptors)[0].index,
        s.in_view(descriptors).len() == 0 && s.hidden.contains(s.focused_remote)
            ==> s.effective_focus(descriptors) == 0,
{
    filter_props(descriptors, s.shown());
    crate::seqs::kept_exactly(descriptors, s.shown(), d);
    if descriptors.contains(d) && d.index == s.focused_remote {
        let k = choose|k: int| 0 <= k < descriptors.len() && descriptors[k] == d;
        assert(at_index(s.focused_remote)(descriptors[k]));
    }
}

/// Removing from the dialog removes the entry it was opened for; a new entry
/// has nothing to remove.
pub proof fn dialogs_remove_their_entry(m: LoopModel, edit: Option<ConfigEdit>, name: Seq<char>)
    requires
        removal_of(m, edit),
    ensures
        (m.chrome.remote_edit matches Some(d) && d.original_name == Some(name)) ==> (
        edit matches Some(ConfigEdit::Remove { name: n }) && n@ == name),
        (m.chrome.remote_edit matches Some(d) && d.original_name is None) ==> edit is None,
{
}

/// An error is shown where it belongs, in the open list or the open dialog,
/// which stay open; with neither open it is dropped.
pub proof fn errors_are_shown_in_place(m: LoopModel, error: Seq<char>)
    ensures
        m.chrome.remote_list matches Some(l) ==> (m.list_error(error).chrome.remote_list matches
            Some(r) && r.error == Some(error) && r.rows == l.rows && r.selected == l.selected),
        m.chrome.remote_list is None ==> m.list_error(error) == m,
        m.chrome.remote_edit matches Some(d) ==> (m.dialog_error(error).chrome.remote_edit matches
            Some(r) && r.error == Some(error) && r.name == d.name && r.target == d.target
            && r.session == d.session && r.focused_field == d.focused_field),
        m.chrome.remote_edit is None ==> m.dialog_error(error) == m,
        m.list_error(error).links == m.links && m.dialog_error(error).links == m.links,
{
}

/// A refreshed list has one row for each configured entry, in order, each with
/// its entry.
pub proof fn refreshed_lists_show_every_entry(m: LoopModel, entries: Seq<RemoteEntry>, i: int)
    requires
        m.chrome.remote_list is Some,
        0 <= i < entries.len(),
    ensures
        m.list_refreshed(entries).chrome.remote_list matches Some(l) && l.rows.len()
            == entries.len() && l.rows[i].entry == entries[i] && l.error
            == m.chrome.remote_list->Some_0.error,
        m.list_refreshed(entries).links == m.links && m.list_refreshed(entries).mirrors
            == m.mirrors,
{
}

} // verus!
