//! Editing the fleet from the client: dialogs, the list, starting and
//! stopping remotes, and following a changed config.
use crate::client_state::app_state::AppState;
use crate::client_state::chrome::{ChromeModel, PromptModel};
use crate::client_state::connection::{ClientConnectionState, ConnectionModel};
use crate::client_state::fleet_view::{
    at_index, called, descriptor_at, descriptor_called, descriptors_of, remote_descriptors,
    RemoteDescriptor,
};
use crate::client_state::mirror::{MirrorModel, RemoteMirror};
use crate::client_state::remote_edit::{EditModel, RemoteEditState};
use crate::client_state::remote_list::{
    remote_list_rows, row_called, rows_of, ListModel, RemoteListKeyResult, RemoteListRow,
    RemoteListState,
};
use crate::client_state::remote_start::RemoteStartPrompt;
use crate::client_state::run::frames::fresh_prompt;
use crate::client_state::run::state::{ClientLoop, LoopModel};
use crate::client_state::session::{Link, LinkModel};
use crate::fleet::config::{
    move_in, moved, name_refusal, remove_in, save_in, saved, toggle_enabled_in, toggled,
    valid_name, MoveDirection, RemoteEntry, DEFAULT_SESSION_NAME,
};
use crate::fleet::status::{stopped_line, stopped_status_line, BRAND};
use crate::seqs::{any, find, first_index_props, first_match};
use crate::sorted_map::kept;
use crate::text::{opt_view, same, same_opt, trimmed};
use vstd::prelude::*;
use vstd::string::*;

verus! {

/// A change to the configured list, addressed by name. It is applied to the
/// list as it stands when it is written.
#[derive(Debug)]
pub enum ConfigEdit {
    Reorder { name: String, direction: MoveDirection },
    ToggleEnabled { name: String },
    Remove { name: String },
    Save { original: Option<String>, entry: RemoteEntry },
}

/// The list after an edit.
pub open spec fn edited_list(list: Seq<RemoteEntry>, edit: ConfigEdit) -> Seq<RemoteEntry> {
    match edit {
        ConfigEdit::Reorder { name, direction } => moved(list, name@, direction),
        ConfigEdit::ToggleEnabled { name } => toggled(list, name@),
        ConfigEdit::Remove { name } => list.filter(crate::fleet::config::entry_not(name@)),
        ConfigEdit::Save { original, entry } => saved(list, opt_view(original), entry),
    }
}

/// Applies an edit to the list.
pub fn apply_config_edit(list: &mut Vec<RemoteEntry>, edit: ConfigEdit)
    ensures
        final(list)@ == edited_list(old(list)@, edit),
{
    match edit {
        ConfigEdit::Reorder { name, direction } => move_in(list, name.as_str(), direction),
        ConfigEdit::ToggleEnabled { name } => toggle_enabled_in(list, name.as_str()),
        ConfigEdit::Remove { name } => remove_in(list, name.as_str()),
        ConfigEdit::Save { original, entry } => save_in(list, &original, entry),
    }
}

/// An order to start or stop a remote's server over its bridge.
#[derive(Debug)]
pub struct ServerOrder {
    pub remote: usize,
    pub target: String,
    pub session: String,
    pub program: String,
}

/// The order concerns the descriptor's server, with the program it connects
/// with.
pub open spec fn orders(o: ServerOrder, d: RemoteDescriptor) -> bool {
    &&& o.remote == d.index
    &&& d.target == Some(o.target)
    &&& o.session == d.session
    &&& o.program@ == match d.program {
        Some(p) => p@,
        None => BRAND@,
    }
}

fn order_for(d: &RemoteDescriptor) -> (r: Option<ServerOrder>)
    ensures
        match r {
            Some(o) => orders(o, *d),
            None => d.target is None,
        },
{
    match &d.target {
        Some(target) => Some(
            ServerOrder {
                remote: d.index,
                target: target.clone(),
                session: d.session.clone(),
                program: match &d.program {
                    Some(p) => p.clone(),
                    None => BRAND.to_owned(),
                },
            },
        ),
        None => None,
    }
}

/// Whether a remote is the same runtime at the same place of a new list.
pub open spec fn unchanged(d: RemoteDescriptor, now: Seq<RemoteDescriptor>) -> bool {
    d.index < now.len() && {
        let n = now[d.index as int];
        n.name@ == d.name@ && opt_view(n.target) == opt_view(d.target) && n.session@ == d.session@
    }
}

/// Whether the remote at `index` is gone or another runtime now.
pub open spec fn torn_down(
    was: Seq<RemoteDescriptor>,
    now: Seq<RemoteDescriptor>,
    index: usize,
) -> bool {
    exists|i: int|
        0 <= i < was.len() && (#[trigger] was[i]).index == index && !unchanged(was[i], now)
}

/// What a remote's link is after a config change.
pub open spec fn link_after(
    m: LoopModel,
    now: Seq<RemoteDescriptor>,
    index: usize,
    at: u64,
) -> Option<LinkModel> {
    if m.links.contains_key(index) && !torn_down(m.descriptors, now, index) {
        Some(m.links[index])
    } else if any(now, at_index(index)) {
        Some(LinkModel::Down { retry_at: at })
    } else {
        None
    }
}

/// What a remote's mirror is after a config change.
pub open spec fn mirror_after(m: LoopModel, now: Seq<RemoteDescriptor>, index: usize) -> Option<
    MirrorModel,
> {
    if m.mirrors.contains_key(index) && !torn_down(m.descriptors, now, index) {
        Some(m.mirrors[index])
    } else {
        match first_match(now, at_index(index)) {
            Some(d) => Some(MirrorModel::fresh(index, d.name@)),
            None => None,
        }
    }
}

/// The state follows a changed config: remotes that are gone or another
/// runtime are torn down, new ones get a mirror and a link that is due at
/// once, selection follows names, and titles of no remote are dropped.
pub open spec fn reconciled(was: LoopModel, now: LoopModel, entries: Seq<RemoteEntry>, at: u64) -> bool {
    let list = descriptors_of(entries);
    &&& now.descriptors == list
    &&& forall|i: usize| #[trigger]
        now.links.contains_key(i) == (link_after(was, list, i, at) is Some)
    &&& forall|i: usize| #[trigger]
        now.links.contains_key(i) ==> Some(now.links[i]) == link_after(was, list, i, at)
    &&& forall|i: usize| #[trigger]
        now.mirrors.contains_key(i) == (mirror_after(was, list, i) is Some)
    &&& forall|i: usize| #[trigger]
        now.mirrors.contains_key(i) ==> Some(now.mirrors[i]) == mirror_after(was, list, i)
    &&& now.chrome == (ChromeModel {
        selection: was.chrome.selection.remapped(was.descriptors, list),
        window_titles: now.chrome.window_titles,
        ..was.chrome
    })
    &&& forall|i: usize| #[trigger]
        now.chrome.window_titles.contains_key(i) == (was.chrome.window_titles.contains_key(i)
            && !torn_down(was.descriptors, list, i) && any(list, at_index(i)))
    &&& forall|i: usize| #[trigger]
        now.chrome.window_titles.contains_key(i) ==> now.chrome.window_titles[i]
            == was.chrome.window_titles[i]
    &&& now.ids == was.ids
    &&& now.app == was.app
    &&& now.ui == was.ui
}

fn still_there(d: &RemoteDescriptor, now: &Vec<RemoteDescriptor>) -> (r: bool)
    ensures
        r == unchanged(*d, now@),
{
    if d.index < now.len() {
        let n = &now[d.index];
        n.name == d.name && same_opt(&n.target, &d.target) && n.session == d.session
    } else {
        false
    }
}

fn is_torn_down(was: &Vec<RemoteDescriptor>, now: &Vec<RemoteDescriptor>, index: usize) -> (r: bool)
    ensures
        r == torn_down(was@, now@, index),
{
    let mut i: usize = 0;
    while i < was.len()
        invariant
            i <= was@.len(),
            forall|j: int|
                0 <= j < i ==> !((#[trigger] was@[j]).index == index && !unchanged(was@[j], now@)),
        decreases was@.len() - i,
    {
        if was[i].index == index && !still_there(&was[i], now) {
            assert(was@[i as int].index == index && !unchanged(was@[i as int], now@));
            return true;
        }
        i = i + 1;
    }
    false
}

pub open spec fn title_stays(was: Seq<RemoteDescriptor>, now: Seq<RemoteDescriptor>) -> spec_fn(
    usize,
    String,
) -> bool {
    |i: usize, t: String| !torn_down(was, now, i) && any(now, at_index(i))
}

pub open spec fn link_stays(was: Seq<RemoteDescriptor>, now: Seq<RemoteDescriptor>) -> spec_fn(
    usize,
    Link,
) -> bool {
    |i: usize, l: Link| !torn_down(was, now, i)
}

pub open spec fn mirror_stays(was: Seq<RemoteDescriptor>, now: Seq<RemoteDescriptor>) -> spec_fn(
    usize,
    RemoteMirror,
) -> bool {
    |i: usize, m: RemoteMirror| !torn_down(was, now, i)
}

impl ClientLoop {
    /// Tears down what the new list no longer has.
    fn tear_down(&mut self, now: &Vec<RemoteDescriptor>)
        requires
            old(self).wf(),
        ensures
            final(self).wf(),
            final(self).links@ == kept(
                old(self).links@,
                link_stays(old(self)@.descriptors, now@),
            ),
            final(self).mirrors.mirrors@ == kept(
                old(self).mirrors.mirrors@,
                mirror_stays(old(self)@.descriptors, now@),
            ),
            final(self).chrome.window_titles@ == kept(
                old(self).chrome.window_titles@,
                title_stays(old(self)@.descriptors, now@),
            ),
            final(self)@ == (LoopModel {
                links: final(self)@.links,
                mirrors: final(self)@.mirrors,
                chrome: ChromeModel {
                    window_titles: final(self)@.chrome.window_titles,
                    ..old(self)@.chrome
                },
                ..old(self)@
            }),
    {
        let was = &self.descriptors;
        let link_test = |e: &(usize, Link)| -> (b: bool)
            ensures
                b == !torn_down(was@, now@, e.0),
            { !is_torn_down(was, now, e.0) };
        self.links.retain(link_test, Ghost(link_stays(was@, now@)));
        let mirror_test = |e: &(usize, RemoteMirror)| -> (b: bool)
            ensures
                b == !torn_down(was@, now@, e.0),
            { !is_torn_down(was, now, e.0) };
        self.mirrors.mirrors.retain(mirror_test, Ghost(mirror_stays(was@, now@)));
        let title_test = |e: &(usize, String)| -> (b: bool)
            ensures
                b == (!torn_down(was@, now@, e.0) && any(now@, at_index(e.0))),
            { !is_torn_down(was, now, e.0) && descriptor_at(now.as_slice(), e.0).is_some() };
        self.chrome.window_titles.retain(title_test, Ghost(title_stays(was@, now@)));
    }

    /// Gives every remote of the new list a mirror and a link.
    fn build_up(&mut self, list: &Vec<RemoteDescriptor>, now: u64)
        requires
            old(self).wf(),
        ensures
            final(self).wf(),
            forall|i: usize| #[trigger]
                final(self)@.links.contains_key(i) == (old(self)@.links.contains_key(i) || any(
                    list@,
                    at_index(i),
                )),
            forall|i: usize| #[trigger]
                final(self)@.links.contains_key(i) ==> final(self)@.links[i] == if old(
                    self,
                )@.links.contains_key(i) {
                    old(self)@.links[i]
                } else {
                    LinkModel::Down { retry_at: now }
                },
            forall|i: usize| #[trigger]
                final(self)@.mirrors.contains_key(i) == (old(self)@.mirrors.contains_key(i) || any(
                    list@,
                    at_index(i),
                )),
            forall|i: usize| #[trigger]
                final(self)@.mirrors.contains_key(i) ==> if old(self)@.mirrors.contains_key(i) {
                    final(self)@.mirrors[i] == old(self)@.mirrors[i]
                } else {
                    first_match(list@, at_index(i)) matches Some(d) && final(self)@.mirrors[i]
                        == MirrorModel::fresh(i, d.name@)
                },
            final(self)@ == (LoopModel {
                links: final(self)@.links,
                mirrors: final(self)@.mirrors,
                ..old(self)@
            }),
    {
        let ghost was = self@;
        let mut i: usize = 0;
        proof {
            assert forall|k: usize| !any(list@.take(0), at_index(k)) by {}
        }
        while i < list.len()
            invariant
                was == old(self)@,
                self.wf(),
                i <= list@.len(),
                forall|k: usize| #[trigger]
                    self@.links.contains_key(k) == (was.links.contains_key(k) || any(
                        list@.take(i as int),
                        at_index(k),
                    )),
                forall|k: usize| #[trigger]
                    self@.links.contains_key(k) ==> self@.links[k] == if was.links.contains_key(k) {
                        was.links[k]
                    } else {
                        LinkModel::Down { retry_at: now }
                    },
                forall|k: usize| #[trigger]
                    self@.mirrors.contains_key(k) == (was.mirrors.contains_key(k) || any(
                        list@.take(i as int),
                        at_index(k),
                    )),
                forall|k: usize| #[trigger]
                    self@.mirrors.contains_key(k) ==> if was.mirrors.contains_key(k) {
                        self@.mirrors[k] == was.mirrors[k]
                    } else {
                        first_match(list@, at_index(k)) matches Some(d) && self@.mirrors[k]
                            == MirrorModel::fresh(k, d.name@)
                    },
                self@ == (LoopModel { links: self@.links, mirrors: self@.mirrors, ..was }),
            decreases list@.len() - i,
        {
            let d = &list[i];
            let index: usize = d.index;
            let ghost before = self@;
            proof {
                let part = list@.take(i as int);
                let more = list@.take(i + 1);
                assert forall|k: usize|
                    any(more, at_index(k)) == (any(part, at_index(k)) || k == index) by {
                    if any(more, at_index(k)) {
                        let j = choose|j: int| 0 <= j < more.len() && at_index(k)(#[trigger] more[j]);
                        if j < i {
                            assert(part[j] == more[j]);
                        }
                    }
                    if any(part, at_index(k)) {
                        let j = choose|j: int| 0 <= j < part.len() && at_index(k)(#[trigger] part[j]);
                        assert(more[j] == part[j]);
                    }
                    assert(more[i as int] == *d);
                }
            }
            if self.mirrors.get(index).is_none() {
                proof {
                    // This is the first of its index: an earlier one would have a mirror.
                    assert(!any(list@.take(i as int), at_index(index)));
                    assert forall|j: int| 0 <= j < i implies !at_index(index)(
                        #[trigger] list@[j],
                    ) by {
                        assert(list@.take(i as int)[j] == list@[j]);
                    }
                    crate::seqs::first_index_is(list@, at_index(index), i as int);
                }
                self.mirrors.insert(RemoteMirror::new(index, d.name.clone()));
            }
            assert(self@.links == before.links);
            if self.links.get(&index).is_none() {
                assert(!before.links.contains_key(index));
                self.set_link(index, Link::Down { retry_at: now });
            }
            proof {
                assert forall|k: usize| #[trigger] self@.links.contains_key(k) implies self@.links[k]
                    == if was.links.contains_key(k) {
                    was.links[k]
                } else {
                    LinkModel::Down { retry_at: now }
                } by {
                    if before.links.contains_key(k) {
                        assert(self@.links[k] == before.links[k]);
                    }
                }
            }
            i = i + 1;
        }
        assert(list@.take(i as int) =~= list@);
    }

    /// Follows a changed config.
    pub fn reconcile_fleet(&mut self, entries: &[RemoteEntry], now: u64)
        requires
            old(self).wf(),
        ensures
            final(self).wf(),
            reconciled(old(self)@, final(self)@, entries@, now),
    {
        let ghost was = self@;
        let list = remote_descriptors(entries);
        self.tear_down(&list);
        let ghost torn = self@;
        proof {
            assert forall|i: usize| #[trigger]
                torn.links.contains_key(i) == (was.links.contains_key(i) && !torn_down(
                    was.descriptors,
                    list@,
                    i,
                )) by {}
            assert forall|i: usize| #[trigger]
                torn.mirrors.contains_key(i) == (was.mirrors.contains_key(i) && !torn_down(
                    was.descriptors,
                    list@,
                    i,
                )) by {}
        }
        self.build_up(&list, now);
        self.chrome.selection.remap(self.descriptors.as_slice(), list.as_slice());
        self.descriptors = list;
        proof {
            assert forall|i: usize|
                any(list@, at_index(i)) == (first_match(list@, at_index(i)) is Some) by {
                first_index_props(list@, at_index(i));
            }
        }
    }

    /// Shows the list anew after a config change, if it is open.
    pub fn refresh_remote_list(&mut self, entries: &[RemoteEntry])
        requires
            old(self).wf(),
        ensures
            final(self).wf(),
            final(self)@ == old(self)@.list_refreshed(entries@),
    {
        if self.chrome.remote_list.is_none() {
            return;
        }
        let rows = remote_list_rows(entries, self.descriptors.as_slice(), &self.mirrors);
        if let Some(list) = &mut self.chrome.remote_list {
            list.reload(rows);
        }
    }
}

impl LoopModel {
    pub open spec fn with_list(self, list: Option<ListModel>) -> LoopModel {
        self.with_chrome(ChromeModel { remote_list: list, ..self.chrome })
    }

    pub open spec fn with_dialog(self, dialog: Option<EditModel>) -> LoopModel {
        self.with_chrome(ChromeModel { remote_edit: dialog, ..self.chrome })
    }

    pub open spec fn with_prompt(self, prompt: Option<PromptModel>) -> LoopModel {
        self.with_chrome(ChromeModel { remote_start: prompt, ..self.chrome })
    }

    /// The open list with rows from the config.
    pub open spec fn list_refreshed(self, entries: Seq<RemoteEntry>) -> LoopModel {
        match self.chrome.remote_list {
            Some(l) => self.with_list(
                Some(l.reloaded(rows_of(entries, self.descriptors, self.mirrors))),
            ),
            None => self,
        }
    }

    /// The list shows an error, if it is open.
    pub open spec fn list_error(self, error: Seq<char>) -> LoopModel {
        match self.chrome.remote_list {
            Some(l) => self.with_list(Some(ListModel { error: Some(error), ..l })),
            None => self,
        }
    }

    /// The dialog shows an error, if it is open.
    pub open spec fn dialog_error(self, error: Seq<char>) -> LoopModel {
        match self.chrome.remote_edit {
            Some(d) => self.with_dialog(Some(EditModel { error: Some(error), ..d })),
            None => self,
        }
    }
}

impl ClientLoop {
    fn show_list_error(&mut self, error: String)
        requires
            old(self).wf(),
        ensures
            final(self).wf(),
            final(self)@ == old(self)@.list_error(error@),
    {
        if let Some(list) = &mut self.chrome.remote_list {
            list.refuse(error);
        }
    }

    fn show_dialog_error(&mut self, error: String)
        requires
            old(self).wf(),
        ensures
            final(self).wf(),
            final(self)@ == old(self)@.dialog_error(error@),
    {
        if let Some(dialog) = &mut self.chrome.remote_edit {
            dialog.error = Some(error);
        }
    }

    /// Turns the view's pending requests into dialogs. Each is drained once.
    /// Neither opens over itself, nor in a fleet that no config backs.
    pub fn drain_app_requests(&mut self, entries: &[RemoteEntry])
        requires
            old(self).wf(),
        ensures
            final(self).wf(),
            !final(self)@.app.request_add_remote,
            !final(self)@.app.request_manage_remotes,
            final(self)@.chrome.remote_edit == if old(self)@.app.request_add_remote
                && old(self)@.chrome.remote_edit is None && old(self)@.app.fleet_config_backed {
                Some(EditModel { session: DEFAULT_SESSION_NAME@, ..EditModel::blank() })
            } else {
                old(self)@.chrome.remote_edit
            },
            final(self)@.chrome.remote_list == if old(self)@.app.request_manage_remotes
                && old(self)@.chrome.remote_list is None && old(self)@.app.fleet_config_backed {
                Some(
                    ListModel {
                        rows: rows_of(entries@, old(self)@.descriptors, old(self)@.mirrors),
                        selected: 0,
                        error: None,
                    },
                )
            } else {
                old(self)@.chrome.remote_list
            },
            final(self)@ == (LoopModel {
                app: AppState {
                    request_add_remote: false,
                    request_manage_remotes: false,
                    ..old(self)@.app
                },
                chrome: ChromeModel {
                    remote_edit: final(self)@.chrome.remote_edit,
                    remote_list: final(self)@.chrome.remote_list,
                    ..old(self)@.chrome
                },
                ..old(self)@
            }),
    {
        let (add, manage): (bool, bool) = self.app.take_requests();
        if add && self.chrome.remote_edit.is_none() && self.app.fleet_config_backed {
            self.chrome.remote_edit = Some(RemoteEditState::add());
        }
        if manage && self.chrome.remote_list.is_none() && self.app.fleet_config_backed {
            let rows = remote_list_rows(entries, self.descriptors.as_slice(), &self.mirrors);
            self.chrome.remote_list = Some(RemoteListState::new(rows));
        }
    }

    /// Opens the field dialog on a listed entry.
    fn edit_listed(&mut self, name: &str)
        requires
            old(self).wf(),
        ensures
            final(self).wf(),
            final(self)@ == match old(self)@.chrome.remote_list {
                Some(l) => match first_match(l.rows, row_called(name@)) {
                    Some(row) => old(self)@.with_dialog(Some(EditModel::of_entry(row.entry))),
                    None => old(self)@,
                },
                None => old(self)@,
            },
    {
        let mut dialog: Option<RemoteEditState> = None;
        if let Some(list) = &self.chrome.remote_list {
            let test = |r: &RemoteListRow| -> (b: bool)
                ensures
                    b == (r.entry.name@ == name@),
                { same(r.entry.name.as_str(), name) };
            let i: usize = find(list.rows.as_slice(), test, Ghost(row_called(name@)));
            if i < list.rows.len() {
                dialog = Some(RemoteEditState::edit(&list.rows[i].entry));
            }
        }
        if let Some(dialog) = dialog {
            self.chrome.remote_edit = Some(dialog);
        }
    }

    /// Stops a remote's server. A local runtime has no bridge to stop it over
    /// and says so in the list.
    pub fn stop_remote(&mut self, remote: usize) -> (r: Option<ServerOrder>)
        requires
            old(self).wf(),
        ensures
            final(self).wf(),
            match first_match(old(self)@.descriptors, at_index(remote)) {
                Some(d) => match r {
                    Some(o) => orders(o, d) && final(self)@ == old(self)@,
                    None => d.target is None && final(self)@ == old(self)@.list_error(
                        "a local runtime stops when its last space closes"@,
                    ),
                },
                None => r is None && final(self)@ == old(self)@,
            },
    {
        let order = match descriptor_at(self.descriptors.as_slice(), remote) {
            Some(d) => order_for(d),
            None => {
                return None;
            },
        };
        if order.is_none() {
            self.show_list_error("a local runtime stops when its last space closes".to_owned());
        }
        order
    }

    /// Starts or stops a listed remote: a running one is stopped, another one
    /// gets the start prompt, and a disabled one says so in the list.
    pub fn start_or_stop_listed_remote(&mut self, name: &str) -> (r: Option<ServerOrder>)
        requires
            old(self).wf(),
        ensures
            final(self).wf(),
            start_stop(old(self)@, final(self)@, name@, r),
    {
        let (index, known_name): (usize, String) = match descriptor_called(
            self.descriptors.as_slice(),
            name,
        ) {
            Some(d) => (d.index, d.name.clone()),
            None => {
                let error = "remote '".to_owned().concat(name).concat("' is disabled");
                self.show_list_error(error);
                return None;
            },
        };
        let running: bool = match self.mirrors.get(index) {
            Some(mirror) => !mirror.connection.is_stopped(),
            None => false,
        };
        if running {
            return self.stop_remote(index);
        }
        let status = stopped_status_line(known_name.as_str());
        self.chrome.remote_start = Some(
            RemoteStartPrompt {
                remote: index,
                name: known_name,
                status,
                error: None,
                starting: false,
            },
        );
        None
    }

    /// Approves the open start prompt. A start in flight is not repeated; a
    /// prompt for a remote that is gone or local closes.
    pub fn start_stopped_remote(&mut self) -> (r: Option<ServerOrder>)
        requires
            old(self).wf(),
        ensures
            final(self).wf(),
            start_step(old(self)@, final(self)@, r),
    {
        let remote: usize = match &self.chrome.remote_start {
            Some(prompt) => {
                if prompt.starting {
                    return None;
                }
                prompt.remote
            },
            None => {
                return None;
            },
        };
        let order = match descriptor_at(self.descriptors.as_slice(), remote) {
            Some(d) => order_for(d),
            None => None,
        };
        if order.is_none() {
            self.chrome.remote_start = None;
            return None;
        }
        if let Some(prompt) = &mut self.chrome.remote_start {
            prompt.starting = true;
            prompt.error = None;
        }
        order
    }

    /// The outcome of a stop. Success needs nothing: the server announces it.
    pub fn handle_remote_stopped(&mut self, result: Result<(), String>)
        requires
            old(self).wf(),
        ensures
            final(self).wf(),
            final(self)@ == match result {
                Ok(_) => old(self)@,
                Err(e) => old(self)@.list_error(e@),
            },
    {
        if let Err(error) = result {
            self.show_list_error(error);
        }
    }

    /// The outcome of a start. One whose prompt is gone, or is about another
    /// remote, changes nothing. After a success the remote connects at once.
    pub fn handle_remote_started(&mut self, remote: usize, result: Result<(), String>, now: u64)
        requires
            old(self).wf(),
        ensures
            final(self).wf(),
            final(self)@ == old(self)@.start_reported(remote, result, now),
    {
        let ghost before = self@;
        match &self.chrome.remote_start {
            Some(prompt) => {
                if prompt.remote != remote {
                    return;
                }
            },
            None => {
                return;
            },
        }
        match result {
            Ok(_) => {
                self.chrome.remote_start = None;
                self.chrome.connection_status = None;
                if let Some(mirror) = self.mirrors.get_mut(remote) {
                    mirror.connection = ClientConnectionState::new();
                }
                self.set_link(remote, Link::Down { retry_at: now });
                assert(self@.mirrors =~= before.started(remote, now).mirrors);
            },
            Err(error) => {
                if let Some(prompt) = &mut self.chrome.remote_start {
                    prompt.starting = false;
                    prompt.error = Some(error);
                }
            },
        }
    }

    /// Performs an action of the list. Config edits and stops are handed back.
    pub fn apply_remote_list_action(&mut self, action: RemoteListKeyResult) -> (r: ListStep)
        requires
            old(self).wf(),
        ensures
            final(self).wf(),
            list_step(old(self)@, final(self)@, action, r),
    {
        match action {
            RemoteListKeyResult::Consumed | RemoteListKeyResult::Ignored => ListStep::Nothing,
            RemoteListKeyResult::Close => {
                self.chrome.remote_list = None;
                ListStep::Nothing
            },
            RemoteListKeyResult::Reorder(name, direction) => ListStep::Edit(
                ConfigEdit::Reorder { name, direction },
            ),
            RemoteListKeyResult::ToggleEnabled(name) => ListStep::Edit(
                ConfigEdit::ToggleEnabled { name },
            ),
            RemoteListKeyResult::Remove(name) => ListStep::Edit(ConfigEdit::Remove { name }),
            RemoteListKeyResult::Edit(name) => {
                self.edit_listed(name.as_str());
                ListStep::Nothing
            },
            RemoteListKeyResult::StartStop(name) => {
                match self.start_or_stop_listed_remote(name.as_str()) {
                    Some(order) => ListStep::Stop(order),
                    None => ListStep::Nothing,
                }
            },
        }
    }

    /// Submits the dialog: an entry that does not validate shows its error, a
    /// valid one is handed back to be saved.
    pub fn submit_remote_edit(&mut self) -> (r: Option<ConfigEdit>)
        requires
            old(self).wf(),
        ensures
            final(self).wf(),
            submit_step(old(self)@, final(self)@, r),
    {
        let (result, original) = match &self.chrome.remote_edit {
            Some(dialog) => (dialog.entry(), dialog.original()),
            None => {
                return None;
            },
        };
        match result {
            Ok(entry) => Some(ConfigEdit::Save { original, entry }),
            Err(error) => {
                self.show_dialog_error(error);
                None
            },
        }
    }

    /// Removes the remote the dialog is editing; one being added has none.
    pub fn remove_edited_remote(&self) -> (r: Option<ConfigEdit>)
        ensures
            removal_of(self@, r),
    {
        match &self.chrome.remote_edit {
            Some(dialog) => match &dialog.original_name {
                Some(name) => Some(ConfigEdit::Remove { name: name.clone() }),
                None => None,
            },
            None => None,
        }
    }

    /// A write that the list asked for succeeded: the fleet and the list
    /// follow. Without the list nothing does.
    pub fn list_edit_saved(&mut self, entries: &[RemoteEntry], now: u64)
        requires
            old(self).wf(),
        ensures
            final(self).wf(),
            match old(self)@.chrome.remote_list {
                None => final(self)@ == old(self)@,
                Some(l) => exists|mid: LoopModel|
                    #![trigger reconciled(
                        old(self)@.with_list(Some(ListModel { error: None, ..l })),
                        mid,
                        entries@,
                        now,
                    )]
                    reconciled(
                        old(self)@.with_list(Some(ListModel { error: None, ..l })),
                        mid,
                        entries@,
                        now,
                    ) && final(self)@ == mid.list_refreshed(entries@),
            },
    {
        match &mut self.chrome.remote_list {
            Some(list) => {
                list.error = None;
            },
            None => {
                return;
            },
        }
        self.reconcile_fleet(entries, now);
        self.refresh_remote_list(entries);
    }

    /// A write that the list asked for was refused: the list says why.
    pub fn list_edit_refused(&mut self, error: String)
        requires
            old(self).wf(),
        ensures
            final(self).wf(),
            final(self)@ == old(self)@.list_error(error@),
    {
        self.show_list_error(error);
    }

    /// A write that the dialog asked for succeeded: the dialog closes, the
    /// fleet and the list follow.
    pub fn dialog_edit_saved(&mut self, entries: &[RemoteEntry], now: u64)
        requires
            old(self).wf(),
        ensures
            final(self).wf(),
            exists|mid: LoopModel|
                #![trigger reconciled(old(self)@.with_dialog(None), mid, entries@, now)]
                reconciled(old(self)@.with_dialog(None), mid, entries@, now) && final(self)@
                    == mid.list_refreshed(entries@),
    {
        self.chrome.remote_edit = None;
        self.reconcile_fleet(entries, now);
        self.refresh_remote_list(entries);
    }

    /// A write that the dialog asked for was refused: the dialog says why.
    pub fn dialog_edit_refused(&mut self, error: String)
        requires
            old(self).wf(),
        ensures
            final(self).wf(),
            final(self)@ == old(self)@.dialog_error(error@),
    {
        self.show_dialog_error(error);
    }
}

/// What an action of the list leaves to be done outside.
#[derive(Debug)]
pub enum ListStep {
    Nothing,
    /// Write the config.
    Edit(ConfigEdit),
    /// Stop a server.
    Stop(ServerOrder),
}

/// What starting or stopping a listed remote does.
pub open spec fn start_stop(
    was: LoopModel,
    now: LoopModel,
    name: Seq<char>,
    order: Option<ServerOrder>,
) -> bool {
    match first_match(was.descriptors, called(name)) {
        None => order is None && now == was.list_error("remote '"@ + name + "' is disabled"@),
        Some(d) => if was.mirrors.contains_key(d.index) && !(was.mirrors[d.index].connection is
            Stopped) {
            match first_match(was.descriptors, at_index(d.index)) {
                Some(e) => match order {
                    Some(o) => orders(o, e) && now == was,
                    None => e.target is None && now == was.list_error(
                        "a local runtime stops when its last space closes"@,
                    ),
                },
                None => order is None && now == was,
            }
        } else {
            order is None && now == was.with_prompt(
                Some(fresh_prompt(d.index, d.name@, stopped_line(d.name@))),
            )
        },
    }
}

/// What approving the start prompt does.
pub open spec fn start_step(was: LoopModel, now: LoopModel, order: Option<ServerOrder>) -> bool {
    match was.chrome.remote_start {
        None => order is None && now == was,
        Some(p) => if p.starting {
            order is None && now == was
        } else {
            match first_match(was.descriptors, at_index(p.remote)) {
                Some(d) => match order {
                    Some(o) => orders(o, d) && now == was.with_prompt(
                        Some(PromptModel { starting: true, error: None, ..p }),
                    ),
                    None => d.target is None && now == was.with_prompt(None),
                },
                None => order is None && now == was.with_prompt(None),
            }
        },
    }
}

/// What submitting the dialog does.
pub open spec fn submit_step(was: LoopModel, now: LoopModel, edit: Option<ConfigEdit>) -> bool {
    match was.chrome.remote_edit {
        None => edit is None && now == was,
        Some(d) => if valid_name(trimmed(d.name)) {
            now == was && (edit matches Some(ConfigEdit::Save { original, entry }) && opt_view(
                original,
            ) == d.original_name && entry.name@ == trimmed(d.name) && opt_view(entry.target)
                == d.target_name() && entry.session@ == d.session_name() && entry.enabled
                == d.enabled && entry.hue == d.hue)
        } else {
            edit is None && now == was.dialog_error(name_refusal(trimmed(d.name)))
        },
    }
}

/// The edit that removes the remote the dialog is about.
pub open spec fn removal_of(m: LoopModel, edit: Option<ConfigEdit>) -> bool {
    match m.chrome.remote_edit {
        Some(d) => match d.original_name {
            Some(name) => edit matches Some(ConfigEdit::Remove { name: n }) && n@ == name,
            None => edit is None,
        },
        None => edit is None,
    }
}

/// What an action of the list does.
pub open spec fn list_step(
    was: LoopModel,
    now: LoopModel,
    action: RemoteListKeyResult,
    step: ListStep,
) -> bool {
    match action {
        RemoteListKeyResult::Consumed => step is Nothing && now == was,
        RemoteListKeyResult::Ignored => step is Nothing && now == was,
        RemoteListKeyResult::Close => step is Nothing && now == was.with_list(None),
        RemoteListKeyResult::Reorder(name, direction) => step == ListStep::Edit(
            ConfigEdit::Reorder { name, direction },
        ) && now == was,
        RemoteListKeyResult::ToggleEnabled(name) => step == ListStep::Edit(
            ConfigEdit::ToggleEnabled { name },
        ) && now == was,
        RemoteListKeyResult::Remove(name) => step == ListStep::Edit(ConfigEdit::Remove { name })
            && now == was,
        RemoteListKeyResult::Edit(name) => step is Nothing && now == match was.chrome.remote_list {
            Some(l) => match first_match(l.rows, row_called(name@)) {
                Some(row) => was.with_dialog(Some(EditModel::of_entry(row.entry))),
                None => was,
            },
            None => was,
        },
        RemoteListKeyResult::StartStop(name) => !(step is Edit) && start_stop(
            was,
            now,
            name@,
            match step {
                ListStep::Stop(o) => Some(o),
                _ => None,
            },
        ),
    }
}

impl LoopModel {
    /// What the outcome of a start does, while its prompt is open.
    pub open spec fn start_reported(
        self,
        remote: usize,
        result: Result<(), String>,
        now: u64,
    ) -> LoopModel {
        match self.chrome.remote_start {
            Some(p) => if p.remote != remote {
                self
            } else {
                match result {
                    Ok(_) => self.started(remote, now),
                    Err(e) => self.with_prompt(
                        Some(PromptModel { starting: false, error: Some(e@), ..p }),
                    ),
                }
            },
            None => self,
        }
    }

    /// The remote's server runs: it is connected to at once.
    pub open spec fn started(self, remote: usize, now: u64) -> LoopModel {
        let m = self.with_prompt(None).with_status(None).with_link(
            remote,
            LinkModel::Down { retry_at: now },
        );
        if self.mirrors.contains_key(remote) {
            m.with_mirror(
                remote,
                MirrorModel {
                    connection: ConnectionModel::Disconnected,
                    ..self.mirrors[remote]
                },
            )
        } else {
            m
        }
    }
}

/// A remote that a start brought back is connected to at once.
pub proof fn started_remotes_are_due(m: LoopModel, remote: usize, now: u64)
    requires
        m.mirrors.contains_key(remote),
    ensures
        m.started(remote, now).is_due(remote, now),
{
}

/// A remote whose name, target and session did not change keeps its link and
/// its mirror through a config change.
pub proof fn unchanged_remotes_keep_their_session(
    was: LoopModel,
    now: LoopModel,
    entries: Seq<RemoteEntry>,
    at: u64,
    index: usize,
)
    requires
        reconciled(was, now, entries, at),
        was.links.contains_key(index),
        was.mirrors.contains_key(index),
        !torn_down(was.descriptors, descriptors_of(entries), index),
    ensures
        now.links.contains_key(index),
        now.links[index] == was.links[index],
        now.mirrors.contains_key(index),
        now.mirrors[index] == was.mirrors[index],
{
}

/// A remote that became another runtime starts from nothing, with a connect
/// due at once.
pub proof fn changed_remotes_start_over(
    was: LoopModel,
    now: LoopModel,
    entries: Seq<RemoteEntry>,
    at: u64,
    index: usize,
)
    requires
        reconciled(was, now, entries, at),
        torn_down(was.descriptors, descriptors_of(entries), index),
        any(descriptors_of(entries), at_index(index)),
    ensures
        now.is_due(index, at),
        now.mirrors[index].catalog == crate::client_state::catalog::CatalogModel::empty(),
        !now.chrome.window_titles.contains_key(index),
{
    first_index_props(descriptors_of(entries), at_index(index));
    assert(now.links.contains_key(index));
    assert(now.mirrors.contains_key(index));
}

} // verus!
