//! The fleet as the client shows it: which remotes exist, which are in view,
//! which one holds the focus. Membership is presentation state only: nothing
//! here connects or disconnects anything.
use crate::client_state::connection::{ClientConnectionState, ConnectionModel};
use crate::client_state::mirror::{MirrorModel, RemoteMirrors, LOCAL_REMOTE_INDEX};
use crate::fleet::config::{entry_enabled, RemoteEntry, DEFAULT_SESSION_NAME};
use crate::seqs::{any, filter_props, find, first_index, first_index_props, first_match};
use crate::sorted_map::SortedMap;
use crate::text::{copy_opt, same};
use std::collections::BTreeSet;
use vstd::prelude::*;
use vstd::string::*;

verus! {

/// One remote the client composes over, in config order.
#[derive(Clone, PartialEq, Eq, Debug)]
pub struct RemoteDescriptor {
    /// Stable per-run remote index.
    pub index: usize,
    pub name: String,
    /// Identity hue, by config order.
    pub hue_index: usize,
    /// SSH target; `None` for a local runtime.
    pub target: Option<String>,
    /// Remote session name.
    pub session: String,
    /// Remote binary to run; `None` runs the one on the remote's path.
    pub program: Option<String>,
}

impl RemoteDescriptor {
    /// A local runtime at the fleet's head.
    pub fn local() -> (r: RemoteDescriptor)
        ensures
            r.index == LOCAL_REMOTE_INDEX,
            r.name@ == crate::client_state::mirror::LOCAL_REMOTE_NAME@,
            r.hue_index == 0,
            r.target is None,
            r.session@ == DEFAULT_SESSION_NAME@,
            r.program is None,
    {
        RemoteDescriptor {
            index: LOCAL_REMOTE_INDEX,
            name: crate::client_state::mirror::LOCAL_REMOTE_NAME.to_owned(),
            hue_index: 0,
            target: None,
            session: DEFAULT_SESSION_NAME.to_owned(),
            program: None,
        }
    }

    /// The single descriptor of an ephemeral fleet of one: not configured,
    /// alive only for this launch, and at the head because it is all there is.
    pub fn ephemeral(name: String, target: String, session: String, program: Option<String>) -> (r:
        RemoteDescriptor)
        ensures
            r == (RemoteDescriptor {
                index: LOCAL_REMOTE_INDEX,
                name,
                hue_index: 0,
                target: Some(target),
                session,
                program,
            }),
    {
        RemoteDescriptor {
            index: LOCAL_REMOTE_INDEX,
            name,
            hue_index: 0,
            target: Some(target),
            session,
            program,
        }
    }

    /// A copy of the descriptor.
    pub fn copy(&self) -> (r: RemoteDescriptor)
        ensures
            r == *self,
    {
        RemoteDescriptor {
            index: self.index,
            name: self.name.clone(),
            hue_index: self.hue_index,
            target: copy_opt(&self.target),
            session: self.session.clone(),
            program: copy_opt(&self.program),
        }
    }
}

/// The descriptor an entry has at position `index` of the enabled ones.
pub open spec fn descriptor_of(entry: RemoteEntry, index: usize) -> RemoteDescriptor {
    RemoteDescriptor {
        index,
        name: entry.name,
        hue_index: index,
        target: entry.target,
        session: entry.session,
        program: None,
    }
}

/// The enabled entries in order, each described by its position.
pub open spec fn descriptors_of(entries: Seq<RemoteEntry>) -> Seq<RemoteDescriptor> {
    let on = entries.filter(entry_enabled());
    Seq::new(on.len(), |i: int| descriptor_of(on[i], i as usize))
}

/// The composed remote list: every enabled entry in file order, and nothing
/// else. Hues follow list order.
pub fn remote_descriptors(entries: &[RemoteEntry]) -> (r: Vec<RemoteDescriptor>)
    ensures
        r@ == descriptors_of(entries@),
{
    let mut out: Vec<RemoteDescriptor> = Vec::new();
    let mut i: usize = 0;
    proof {
        reveal(Seq::filter);
        assert(out@ =~= descriptors_of(entries@.take(0)));
    }
    while i < entries.len()
        invariant
            i <= entries@.len(),
            out@.len() <= i,
            out@ == descriptors_of(entries@.take(i as int)),
        decreases entries@.len() - i,
    {
        let entry = &entries[i];
        let ghost part = entries@.take(i as int);
        proof {
            assert(entries@.take(i + 1) =~= part.push(*entry));
            part.lemma_filter_push(*entry, entry_enabled());
        }
        if entry.enabled {
            let index: usize = out.len();
            out.push(
                RemoteDescriptor {
                    index,
                    name: entry.name.clone(),
                    hue_index: index,
                    target: copy_opt(&entry.target),
                    session: entry.session.clone(),
                    program: None,
                },
            );
        }
        i = i + 1;
        assert(out@ =~= descriptors_of(entries@.take(i as int)));
    }
    assert(entries@.take(i as int) =~= entries@);
    out
}

/// The descriptor of remote `index`.
pub open spec fn at_index(index: usize) -> spec_fn(RemoteDescriptor) -> bool {
    |d: RemoteDescriptor| d.index == index
}

/// The descriptor of the remote called `name`.
pub open spec fn called(name: Seq<char>) -> spec_fn(RemoteDescriptor) -> bool {
    |d: RemoteDescriptor| d.name@ == name
}

/// The descriptor with that index.
pub fn descriptor_at(descriptors: &[RemoteDescriptor], index: usize) -> (r: Option<
    &RemoteDescriptor,
>)
    ensures
        match r {
            Some(d) => first_match(descriptors@, at_index(index)) == Some(*d) && d.index == index,
            None => first_match(descriptors@, at_index(index)) is None,
        },
        r is Some <==> any(descriptors@, at_index(index)),
{
    let test = |d: &RemoteDescriptor| -> (b: bool)
        ensures
            b == (d.index == index),
        { d.index == index };
    let i: usize = find(descriptors, test, Ghost(at_index(index)));
    if i < descriptors.len() {
        Some(&descriptors[i])
    } else {
        None
    }
}

/// The descriptor with that name.
pub fn descriptor_called<'a>(descriptors: &'a [RemoteDescriptor], name: &str) -> (r: Option<
    &'a RemoteDescriptor,
>)
    ensures
        match r {
            Some(d) => first_match(descriptors@, called(name@)) == Some(*d) && d.name@ == name@,
            None => first_match(descriptors@, called(name@)) is None,
        },
        r is Some <==> any(descriptors@, called(name@)),
{
    let test = |d: &RemoteDescriptor| -> (b: bool)
        ensures
            b == (d.name@ == name@),
        { same(d.name.as_str(), name) };
    let i: usize = find(descriptors, test, Ghost(called(name@)));
    if i < descriptors.len() {
        Some(&descriptors[i])
    } else {
        None
    }
}

/// Client-owned view membership. The hidden set is what is stored, so a newly
/// configured remote starts in view.
#[derive(Clone, PartialEq, Eq, Debug)]
pub struct FleetSelection {
    pub hidden: BTreeSet<usize>,
    /// The remote whose focused workspace owns the composed focus.
    pub focused_remote: usize,
}

/// The mathematical value of a selection.
pub struct SelectionModel {
    pub hidden: Set<usize>,
    pub focused_remote: usize,
}

/// The refusal of a toggle that would empty the view.
pub const VIEW_REFUSAL: &'static str = "at least one remote stays in view";

impl View for FleetSelection {
    type V = SelectionModel;

    open spec fn view(&self) -> SelectionModel {
        SelectionModel { hidden: self.hidden@, focused_remote: self.focused_remote }
    }
}

/// The index of the remote called `name`, if it is in the list.
pub open spec fn index_called(descriptors: Seq<RemoteDescriptor>, name: Seq<char>) -> Option<
    usize,
> {
    match first_match(descriptors, called(name)) {
        Some(d) => Some(d.index),
        None => None,
    }
}

/// Where the remote that was at `index` stands now.
pub open spec fn carried(
    was: Seq<RemoteDescriptor>,
    now: Seq<RemoteDescriptor>,
    index: usize,
) -> Option<usize> {
    match first_match(was, at_index(index)) {
        Some(d) => index_called(now, d.name@),
        None => None,
    }
}

impl SelectionModel {
    pub open spec fn shows(self, index: usize) -> bool {
        !self.hidden.contains(index)
    }

    pub open spec fn shown(self) -> spec_fn(RemoteDescriptor) -> bool {
        |d: RemoteDescriptor| !self.hidden.contains(d.index)
    }

    /// The in-view subset, in order.
    pub open spec fn in_view(self, descriptors: Seq<RemoteDescriptor>) -> Seq<RemoteDescriptor> {
        descriptors.filter(self.shown())
    }

    /// The focused remote when it is in view, else the first in view.
    pub open spec fn effective_focus(self, descriptors: Seq<RemoteDescriptor>) -> usize {
        if self.shows(self.focused_remote) && any(descriptors, at_index(self.focused_remote)) {
            self.focused_remote
        } else if self.in_view(descriptors).len() > 0 {
            self.in_view(descriptors)[0].index
        } else {
            LOCAL_REMOTE_INDEX
        }
    }

    /// Whether a toggle of `index` is refused.
    pub open spec fn refuses(self, index: usize, descriptors: Seq<RemoteDescriptor>) -> bool {
        self.shows(index) && self.in_view(descriptors).len() <= 1
    }

    /// Membership of `index` flipped.
    pub open spec fn flipped(self, index: usize) -> SelectionModel {
        SelectionModel {
            hidden: if self.shows(index) {
                self.hidden.insert(index)
            } else {
                self.hidden.remove(index)
            },
            ..self
        }
    }

    /// Everything in the list but `index` hidden, and `index` focused.
    pub open spec fn soloed(self, index: usize, descriptors: Seq<RemoteDescriptor>) -> SelectionModel {
        SelectionModel {
            hidden: Set::new(|i: usize| i != index && any(descriptors, at_index(i))),
            focused_remote: index,
        }
    }

    /// The hidden set carried over by name.
    pub open spec fn carried_hidden(
        self,
        was: Seq<RemoteDescriptor>,
        now: Seq<RemoteDescriptor>,
    ) -> Set<usize> {
        Set::new(
            |j: usize|
                exists|i: usize| #[trigger]
                    self.hidden.contains(i) && carried(was, now, i) == Some(j),
        )
    }

    /// What position `j` of the old list adds to the new hidden set.
    pub open spec fn carries(
        self,
        was: Seq<RemoteDescriptor>,
        now: Seq<RemoteDescriptor>,
        j: int,
    ) -> Option<usize> {
        if self.hidden.contains(was[j].index) && first_index(was, at_index(was[j].index)) == j {
            index_called(now, was[j].name@)
        } else {
            None
        }
    }

    /// Hidden and focus state carried over by name; a view that would be left
    /// empty comes back whole.
    pub open spec fn remapped(
        self,
        was: Seq<RemoteDescriptor>,
        now: Seq<RemoteDescriptor>,
    ) -> SelectionModel {
        let focused_remote = match carried(was, now, self.focused_remote) {
            Some(i) => i,
            None => LOCAL_REMOTE_INDEX,
        };
        let next = SelectionModel { hidden: self.carried_hidden(was, now), focused_remote };
        if next.in_view(now).len() == 0 {
            SelectionModel { hidden: Set::empty(), focused_remote }
        } else {
            next
        }
    }
}

impl Default for FleetSelection {
    fn default() -> (r: FleetSelection)
        ensures
            r@.hidden == Set::<usize>::empty(),
            r@.focused_remote == LOCAL_REMOTE_INDEX,
    {
        FleetSelection { hidden: BTreeSet::new(), focused_remote: LOCAL_REMOTE_INDEX }
    }
}

impl FleetSelection {
    /// Everything in view, focus at the head.
    pub fn new() -> (r: FleetSelection)
        ensures
            r@.hidden == Set::<usize>::empty(),
            r@.focused_remote == LOCAL_REMOTE_INDEX,
    {
        FleetSelection { hidden: BTreeSet::new(), focused_remote: LOCAL_REMOTE_INDEX }
    }

    pub fn is_in_view(&self, index: usize) -> (r: bool)
        ensures
            r == self@.shows(index),
    {
        !self.hidden.contains(&index)
    }

    /// The in-view subset of `descriptors`, in order.
    pub fn in_view<'a>(&self, descriptors: &'a [RemoteDescriptor]) -> (r: Vec<&'a RemoteDescriptor>)
        ensures
            r@.len() == self@.in_view(descriptors@).len(),
            forall|i: int|
                0 <= i < r@.len() ==> *(#[trigger] r@[i]) == self@.in_view(descriptors@)[i],
    {
        let mut out: Vec<&'a RemoteDescriptor> = Vec::new();
        let ghost p = self@.shown();
        let mut i: usize = 0;
        proof {
            reveal(Seq::filter);
        }
        while i < descriptors.len()
            invariant
                p == self@.shown(),
                i <= descriptors@.len(),
                out@.len() == descriptors@.take(i as int).filter(p).len(),
                forall|j: int|
                    0 <= j < out@.len() ==> *(#[trigger] out@[j]) == descriptors@.take(
                        i as int,
                    ).filter(p)[j],
            decreases descriptors@.len() - i,
        {
            let d = &descriptors[i];
            proof {
                assert(descriptors@.take(i + 1) =~= descriptors@.take(i as int).push(*d));
                descriptors@.take(i as int).lemma_filter_push(*d, p);
            }
            if self.is_in_view(d.index) {
                out.push(d);
            }
            i = i + 1;
        }
        assert(descriptors@.take(i as int) =~= descriptors@);
        out
    }

    /// The remote whose focus wins.
    pub fn effective_focused_remote(&self, descriptors: &[RemoteDescriptor]) -> (r: usize)
        ensures
            r == self@.effective_focus(descriptors@),
    {
        if self.is_in_view(self.focused_remote) && descriptor_at(
            descriptors,
            self.focused_remote,
        ).is_some() {
            return self.focused_remote;
        }
        let view = self.in_view(descriptors);
        if view.len() > 0 {
            view[0].index
        } else {
            LOCAL_REMOTE_INDEX
        }
    }

    /// Toggles one remote's membership. Refuses to empty the view.
    pub fn toggle(&mut self, index: usize, descriptors: &[RemoteDescriptor]) -> (r: Result<
        (),
        &'static str,
    >)
        ensures
            r is Err <==> old(self)@.refuses(index, descriptors@),
            match r {
                Ok(_) => final(self)@ == old(self)@.flipped(index),
                Err(e) => e@ == VIEW_REFUSAL@ && final(self)@ == old(self)@,
            },
    {
        if self.is_in_view(index) {
            if self.in_view(descriptors).len() <= 1 {
                return Err(VIEW_REFUSAL);
            }
            self.hidden.insert(index);
        } else {
            self.hidden.remove(&index);
        }
        Ok(())
    }

    /// Makes one remote the only one in view, and focuses it.
    pub fn solo(&mut self, index: usize, descriptors: &[RemoteDescriptor])
        ensures
            final(self)@ == old(self)@.soloed(index, descriptors@),
    {
        let mut hidden: BTreeSet<usize> = BTreeSet::new();
        let mut i: usize = 0;
        while i < descriptors.len()
            invariant
                i <= descriptors@.len(),
                forall|k: usize|
                    hidden@.contains(k) <==> k != index && any(
                        descriptors@.take(i as int),
                        at_index(k),
                    ),
            decreases descriptors@.len() - i,
        {
            let other: usize = descriptors[i].index;
            if other != index {
                hidden.insert(other);
            }
            proof {
                let now = descriptors@.take(i + 1);
                let was = descriptors@.take(i as int);
                assert forall|k: usize|
                    any(now, at_index(k)) <==> any(was, at_index(k)) || k == other by {
                    if any(now, at_index(k)) {
                        let j = choose|j: int| 0 <= j < now.len() && at_index(k)(#[trigger] now[j]);
                        if j < i {
                            assert(was[j] == now[j]);
                        }
                    }
                    if any(was, at_index(k)) {
                        let j = choose|j: int| 0 <= j < was.len() && at_index(k)(#[trigger] was[j]);
                        assert(now[j] == was[j]);
                    }
                    assert(now[i as int] == descriptors@[i as int]);
                }
            }
            i = i + 1;
        }
        assert(descriptors@.take(i as int) =~= descriptors@);
        self.hidden = hidden;
        self.focused_remote = index;
        assert(self@.hidden =~= old(self)@.soloed(index, descriptors@).hidden);
    }

    /// Carries selection state across a config change. It follows the
    /// remote's name, not its index: removing or reordering remotes shifts
    /// indices, and state kept by position would pass to another remote.
    pub fn remap(&mut self, was: &[RemoteDescriptor], now: &[RemoteDescriptor])
        ensures
            final(self)@ == old(self)@.remapped(was@, now@),
    {
        let ghost before = self@;
        let mut hidden: BTreeSet<usize> = BTreeSet::new();
        let mut i: usize = 0;
        while i < was.len()
            invariant
                before == self@,
                before == old(self)@,
                i <= was@.len(),
                forall|k: usize|
                    hidden@.contains(k) <==> exists|j: int|
                        0 <= j < i && #[trigger] before.carries(was@, now@, j) == Some(k),
            decreases was@.len() - i,
        {
            let d = &was[i];
            let ghost sofar = hidden@;
            if self.hidden.contains(&d.index) {
                let test = |e: &RemoteDescriptor| -> (b: bool)
                    ensures
                        b == (e.index == d.index),
                    { e.index == d.index };
                let first: usize = find(was, test, Ghost(at_index(d.index)));
                if first == i {
                    if let Some(moved) = descriptor_called(now, d.name.as_str()) {
                        hidden.insert(moved.index);
                    }
                }
            }
            proof {
                let here = before.carries(was@, now@, i as int);
                assert(hidden@ == match here {
                    Some(k) => sofar.insert(k),
                    None => sofar,
                });
                assert forall|k: usize| hidden@.contains(k) implies exists|j: int|
                    0 <= j < i + 1 && #[trigger] before.carries(was@, now@, j) == Some(k) by {
                    if sofar.contains(k) {
                        let j = choose|j: int|
                            0 <= j < i && #[trigger] before.carries(was@, now@, j) == Some(k);
                        assert(before.carries(was@, now@, j) == Some(k));
                    }
                }
            }
            i = i + 1;
        }
        proof {
            assert forall|k: usize|
                hidden@.contains(k) == before.carried_hidden(was@, now@).contains(k) by {
                if hidden@.contains(k) {
                    let j = choose|j: int|
                        0 <= j < i && #[trigger] before.carries(was@, now@, j) == Some(k);
                    assert(carried(was@, now@, was@[j].index) == Some(k));
                }
                if before.carried_hidden(was@, now@).contains(k) {
                    let h = choose|h: usize| #[trigger]
                        before.hidden.contains(h) && carried(was@, now@, h) == Some(k);
                    first_index_props(was@, at_index(h));
                    let j = first_index(was@, at_index(h));
                    assert(was@[j].index == h);
                    assert(before.carries(was@, now@, j) == Some(k));
                }
            }
            assert(hidden@ =~= before.carried_hidden(was@, now@));
        }
        let focused: usize = match descriptor_at(was, self.focused_remote) {
            Some(d) => match descriptor_called(now, d.name.as_str()) {
                Some(moved) => moved.index,
                None => LOCAL_REMOTE_INDEX,
            },
            None => LOCAL_REMOTE_INDEX,
        };
        self.hidden = hidden;
        self.focused_remote = focused;
        if self.in_view(now).len() == 0 {
            self.hidden = BTreeSet::new();
        }
    }
}

/// Every descriptor stands at the position it names.
pub open spec fn in_place(descriptors: Seq<RemoteDescriptor>) -> bool {
    forall|i: int| 0 <= i < descriptors.len() ==> (#[trigger] descriptors[i]).index == i
}

/// A list made from entries numbers its remotes by position, so no two
/// remotes share an index, and none is implicit or disabled.
pub proof fn descriptors_are_the_enabled_entries(entries: Seq<RemoteEntry>)
    requires
        entries.len() <= usize::MAX,
    ensures
        in_place(descriptors_of(entries)),
        descriptors_of(entries).len() == entries.filter(entry_enabled()).len(),
        forall|i: int|
            0 <= i < descriptors_of(entries).len() ==> (
            #[trigger] descriptors_of(entries)[i]).hue_index == i,
        forall|e: RemoteEntry| #[trigger]
            entries.contains(e) && e.enabled ==> any(descriptors_of(entries), called(e.name@)),
{
    let on = entries.filter(entry_enabled());
    entries.lemma_filter_len(entry_enabled());
    filter_props(entries, entry_enabled());
    assert forall|e: RemoteEntry| #[trigger] entries.contains(e) && e.enabled implies any(
        descriptors_of(entries),
        called(e.name@),
    ) by {
        assert(on.contains(e));
        let i = choose|i: int| 0 <= i < on.len() && on[i] == e;
        assert(called(e.name@)(descriptors_of(entries)[i]));
    }
}

/// A toggle never empties the view.
pub proof fn toggling_never_empties_the_view(
    s: SelectionModel,
    index: usize,
    descriptors: Seq<RemoteDescriptor>,
)
    requires
        in_place(descriptors),
        s.in_view(descriptors).len() > 0,
        !s.refuses(index, descriptors),
    ensures
        s.flipped(index).in_view(descriptors).len() > 0,
{
    let p = s.shown();
    let q = s.flipped(index).shown();
    let was = s.in_view(descriptors);
    filter_props(descriptors, p);
    filter_props(descriptors, q);
    let keep = if s.shows(index) && was[0].index == index {
        1int
    } else {
        0int
    };
    assert(descriptors.contains(was[0]));
    if keep == 1 {
        assert(descriptors.contains(was[1]));
        // Two members of the view at one index would be one descriptor twice.
        view_indices_ascend(s, descriptors, 0, 1);
    }
    assert(p(was[keep]));
    assert(q(was[keep]));
    assert(s.flipped(index).in_view(descriptors).contains(was[keep]));
}

/// In a list numbered by position, the view's indices ascend.
pub proof fn view_indices_ascend(
    s: SelectionModel,
    descriptors: Seq<RemoteDescriptor>,
    i: int,
    j: int,
)
    requires
        in_place(descriptors),
        0 <= i < j < s.in_view(descriptors).len(),
    ensures
        s.in_view(descriptors)[i].index < s.in_view(descriptors)[j].index,
    decreases descriptors.len(),
{
    reveal(Seq::filter);
    let p = s.shown();
    let front = descriptors.drop_last();
    let part = front.filter(p);
    assert(in_place(front)) by {
        assert forall|k: int| 0 <= k < front.len() implies (#[trigger] front[k]).index == k by {
            assert(front[k] == descriptors[k]);
        }
    }
    if descriptors.len() > 0 {
        if j < part.len() {
            view_indices_ascend(s, front, i, j);
        } else {
            filter_props(front, p);
            assert(part[i] == s.in_view(descriptors)[i]);
            assert(front.contains(part[i]));
            let k = choose|k: int| 0 <= k < front.len() && front[k] == part[i];
            assert(front[k].index == k);
            assert(descriptors[descriptors.len() - 1].index == descriptors.len() - 1);
        }
    }
}

/// Toggling a remote out and back, or in and back, restores the selection.
pub proof fn toggling_twice_restores(s: SelectionModel, index: usize)
    ensures
        s.flipped(index).flipped(index) == s,
{
    assert(s.flipped(index).flipped(index).hidden =~= s.hidden);
}

/// Soloing a configured remote leaves exactly it in view, focused.
pub proof fn soloing_leaves_exactly_one_in_view(
    s: SelectionModel,
    index: usize,
    descriptors: Seq<RemoteDescriptor>,
)
    requires
        any(descriptors, at_index(index)),
    ensures
        s.soloed(index, descriptors).shows(index),
        forall|i: usize|
            i != index && any(descriptors, at_index(i)) ==> !s.soloed(index, descriptors).shows(
                i,
            ),
        s.soloed(index, descriptors).effective_focus(descriptors) == index,
{
}

/// The remote that holds the focus is in view whenever anything is.
pub proof fn focus_is_in_view(s: SelectionModel, descriptors: Seq<RemoteDescriptor>)
    requires
        s.in_view(descriptors).len() > 0,
    ensures
        s.shows(s.effective_focus(descriptors)),
        any(descriptors, at_index(s.effective_focus(descriptors))),
{
    filter_props(descriptors, s.shown());
    let first = s.in_view(descriptors)[0];
    assert(s.shown()(first));
    assert(descriptors.contains(first));
    let k = choose|k: int| 0 <= k < descriptors.len() && descriptors[k] == first;
    assert(at_index(first.index)(descriptors[k]));
}

/// A config change never leaves the view of a fleet empty.
pub proof fn remapping_never_empties_the_view(
    s: SelectionModel,
    was: Seq<RemoteDescriptor>,
    now: Seq<RemoteDescriptor>,
)
    requires
        now.len() > 0,
    ensures
        s.remapped(was, now).in_view(now).len() > 0,
{
    let r = s.remapped(was, now);
    if r.hidden == Set::<usize>::empty() {
        filter_props(now, r.shown());
        assert(now.contains(now[0]));
        assert(r.in_view(now).contains(now[0]));
    }
}

/// Selection follows identity: when the view survives a config change, a
/// remote that stays is hidden after it exactly if it was hidden before,
/// wherever its index went.
pub proof fn remapping_follows_names(
    s: SelectionModel,
    was: Seq<RemoteDescriptor>,
    now: Seq<RemoteDescriptor>,
    i: int,
    j: int,
)
    requires
        in_place(was),
        in_place(now),
        names_distinct(was),
        names_distinct(now),
        0 <= i < was.len(),
        0 <= j < now.len(),
        was[i].name@ == now[j].name@,
        (SelectionModel {
            hidden: s.carried_hidden(was, now),
            focused_remote: s.focused_remote,
        }).in_view(now).len() > 0,
    ensures
        s.remapped(was, now).shows(now[j].index) == s.shows(was[i].index),
        s.focused_remote == was[i].index ==> s.remapped(was, now).focused_remote == now[j].index,
{
    let next = SelectionModel {
        hidden: s.carried_hidden(was, now),
        focused_remote: s.remapped(was, now).focused_remote,
    };
    let plain = SelectionModel {
        hidden: s.carried_hidden(was, now),
        focused_remote: s.focused_remote,
    };
    assert(next.shown() =~= plain.shown());
    assert(s.remapped(was, now).hidden == s.carried_hidden(was, now));
    carried_by_name(was, now, i, j);
    if s.hidden.contains(was[i].index) {
        assert(s.carried_hidden(was, now).contains(now[j].index));
    }
    if s.carried_hidden(was, now).contains(now[j].index) {
        let h = choose|h: usize| #[trigger]
            s.hidden.contains(h) && carried(was, now, h) == Some(now[j].index);
        first_index_props(was, at_index(h));
        let k = first_index(was, at_index(h));
        assert(was[k].index == h);
        let name = was[k].name@;
        first_index_props(now, called(name));
        let l = first_index(now, called(name));
        assert(now[l].index == now[j].index);
        assert(l == j);
        assert(was[k].name@ == was[i].name@);
        assert(k == i);
    }
}

/// No two remotes of the list share a name.
pub open spec fn names_distinct(descriptors: Seq<RemoteDescriptor>) -> bool {
    forall|i: int, j: int|
        0 <= i < j < descriptors.len() ==> (#[trigger] descriptors[i]).name@ != (
        #[trigger] descriptors[j]).name@
}

proof fn carried_by_name(
    was: Seq<RemoteDescriptor>,
    now: Seq<RemoteDescriptor>,
    i: int,
    j: int,
)
    requires
        in_place(was),
        in_place(now),
        names_distinct(now),
        0 <= i < was.len(),
        0 <= j < now.len(),
        was[i].name@ == now[j].name@,
    ensures
        carried(was, now, was[i].index) == Some(now[j].index),
{
    let h = was[i].index;
    assert(at_index(h)(was[i]));
    first_index_props(was, at_index(h));
    let k = first_index(was, at_index(h));
    assert(was[k].index == k);
    assert(k == i);
    let name = was[i].name@;
    assert(called(name)(now[j]));
    first_index_props(now, called(name));
    let l = first_index(now, called(name));
    if l < j {
        assert(now[l].name@ != now[j].name@);
    } else if j < l {
        assert(now[j].name@ != now[l].name@);
    }
}

/// A connection as a chip's dot shows it.
#[derive(Clone, Copy, PartialEq, Eq, Structural, Debug)]
pub enum RemoteChipConnection {
    Connected,
    Connecting,
    Offline,
    Stopped,
    Incompatible,
}

/// One chip of the strip.
#[derive(Clone, PartialEq, Eq, Debug)]
pub struct RemoteChipState {
    pub name: String,
    pub hue_index: usize,
    pub in_view: bool,
    pub connection: RemoteChipConnection,
}

/// The dot of a connection state.
pub open spec fn dot_of(connection: ConnectionModel) -> RemoteChipConnection {
    match connection {
        ConnectionModel::Connected { .. } => RemoteChipConnection::Connected,
        ConnectionModel::Connecting { .. } => RemoteChipConnection::Connecting,
        ConnectionModel::Disconnected => RemoteChipConnection::Offline,
        ConnectionModel::Offline { .. } => RemoteChipConnection::Offline,
        ConnectionModel::Stopped { .. } => RemoteChipConnection::Stopped,
        ConnectionModel::Incompatible { .. } => RemoteChipConnection::Incompatible,
    }
}

fn chip_connection(connection: &ClientConnectionState) -> (r: RemoteChipConnection)
    ensures
        r == dot_of(connection@),
{
    match connection {
        ClientConnectionState::Connected { negotiated: _ } => RemoteChipConnection::Connected,
        ClientConnectionState::Connecting { attempt: _ } => RemoteChipConnection::Connecting,
        ClientConnectionState::Disconnected => RemoteChipConnection::Offline,
        ClientConnectionState::Offline { attempt: _, last_error: _ } =>
            RemoteChipConnection::Offline,
        ClientConnectionState::Stopped { message: _ } => RemoteChipConnection::Stopped,
        ClientConnectionState::Incompatible { remedy: _, message: _ } =>
            RemoteChipConnection::Incompatible,
    }
}

/// The chip of a descriptor.
pub open spec fn chip_of(
    mirrors: Map<usize, MirrorModel>,
    selection: SelectionModel,
    d: RemoteDescriptor,
) -> RemoteChipState {
    RemoteChipState {
        name: d.name,
        hue_index: d.hue_index,
        in_view: selection.shows(d.index),
        connection: if mirrors.contains_key(d.index) {
            dot_of(mirrors[d.index].connection)
        } else {
            RemoteChipConnection::Offline
        },
    }
}

/// The chip strip: one chip per configured remote, in order.
pub open spec fn chips_of(
    mirrors: Map<usize, MirrorModel>,
    selection: SelectionModel,
    descriptors: Seq<RemoteDescriptor>,
) -> Seq<RemoteChipState> {
    descriptors.map_values(|d: RemoteDescriptor| chip_of(mirrors, selection, d))
}

/// The chip strip: dot = connection state, membership = selection.
pub fn remote_chip_states(
    mirrors: &RemoteMirrors,
    descriptors: &[RemoteDescriptor],
    selection: &FleetSelection,
) -> (r: Vec<RemoteChipState>)
    requires
        mirrors.wf(),
    ensures
        r@ == chips_of(mirrors@, selection@, descriptors@),
{
    let mut out: Vec<RemoteChipState> = Vec::new();
    let mut i: usize = 0;
    while i < descriptors.len()
        invariant
            mirrors.wf(),
            i <= descriptors@.len(),
            out@.len() == i,
            forall|j: int|
                0 <= j < i ==> #[trigger] out@[j] == chip_of(mirrors@, selection@, descriptors@[j]),
        decreases descriptors@.len() - i,
    {
        let d = &descriptors[i];
        let connection = match mirrors.get(d.index) {
            Some(mirror) => chip_connection(&mirror.connection),
            None => RemoteChipConnection::Offline,
        };
        out.push(
            RemoteChipState {
                name: d.name.clone(),
                hue_index: d.hue_index,
                in_view: selection.is_in_view(d.index),
                connection,
            },
        );
        i = i + 1;
    }
    assert(out@ =~= chips_of(mirrors@, selection@, descriptors@));
    out
}

/// The focused remote wins the window title; other titles are retained but
/// not shown.
pub fn select_window_title(titles: &SortedMap<usize, String>, focused_remote: usize) -> (r: Option<
    &str,
>)
    requires
        titles.wf(),
    ensures
        match r {
            Some(t) => titles@.contains_key(focused_remote) && t@ == titles@[focused_remote]@,
            None => !titles@.contains_key(focused_remote),
        },
{
    match titles.get(&focused_remote) {
        Some(t) => Some(t.as_str()),
        None => None,
    }
}

/// A notification as the user sees it: named after its remote as soon as
/// more than one is configured.
pub open spec fn labeled(name: Seq<char>, configured: nat, message: Seq<char>) -> Seq<char> {
    if configured > 1 {
        "["@ + name + "] "@ + message
    } else {
        message
    }
}

/// Labels a notification message with its origin remote.
pub fn labeled_notification_message(
    remote_name: &str,
    configured_remotes: usize,
    message: &str,
) -> (r: String)
    ensures
        r@ == labeled(remote_name@, configured_remotes as nat, message@),
{
    if configured_remotes > 1 {
        "[".to_owned().concat(remote_name).concat("] ").concat(message)
    } else {
        message.to_owned()
    }
}

} // verus!
