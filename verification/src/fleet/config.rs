//! Fleet configuration entries and the edits made to their list.
use crate::seqs::{any, find, first_index, first_match, keep};
use crate::text::same;
use vstd::prelude::*;
use vstd::string::*;

verus! {

/// The session a remote serves when none is named.
pub const DEFAULT_SESSION_NAME: &'static str = "default";

/// One configured runtime. Without a target it is a local one.
#[derive(Clone, PartialEq, Eq, Debug)]
pub struct RemoteEntry {
    pub name: String,
    pub target: Option<String>,
    pub session: String,
    pub enabled: bool,
    pub hue: Option<usize>,
}

pub open spec fn entry_named(name: Seq<char>) -> spec_fn(RemoteEntry) -> bool {
    |e: RemoteEntry| e.name@ == name
}

pub open spec fn entry_not(name: Seq<char>) -> spec_fn(RemoteEntry) -> bool {
    |e: RemoteEntry| e.name@ != name
}

pub open spec fn entry_enabled() -> spec_fn(RemoteEntry) -> bool {
    |e: RemoteEntry| e.enabled
}

/// The characters a remote name is made of.
pub open spec fn name_char(c: char) -> bool {
    ('a' <= c && c <= 'z') || ('A' <= c && c <= 'Z') || ('0' <= c && c <= '9') || c == '-' || c
        == '_' || c == '.'
}

/// A name that a remote can have.
pub open spec fn valid_name(name: Seq<char>) -> bool {
    name.len() > 0 && forall|i: int| 0 <= i < name.len() ==> name_char(#[trigger] name[i])
}

impl RemoteEntry {
    pub fn is_local(&self) -> (r: bool)
        ensures
            r == (self.target is None),
    {
        self.target.is_none()
    }

    /// A copy of the entry.
    pub fn copy(&self) -> (r: RemoteEntry)
        ensures
            r == *self,
    {
        RemoteEntry {
            name: self.name.clone(),
            target: crate::text::copy_opt(&self.target),
            session: self.session.clone(),
            enabled: self.enabled,
            hue: self.hue,
        }
    }
}

/// Why a name was refused.
pub open spec fn name_refusal(name: Seq<char>) -> Seq<char> {
    if name.len() == 0 {
        "remote name must not be empty"@
    } else {
        "remote name '"@ + name + "' may only contain letters, digits, '-', '_' and '.'"@
    }
}

/// Accepts an entry whose name is valid; the error says what is wrong.
pub fn validate_entry(entry: &RemoteEntry) -> (r: Result<(), String>)
    ensures
        match r {
            Ok(_) => valid_name(entry.name@),
            Err(e) => !valid_name(entry.name@) && e@ == name_refusal(entry.name@),
        },
{
    let n: usize = entry.name.as_str().unicode_len();
    if n == 0 {
        return Err("remote name must not be empty".to_owned());
    }
    let mut i: usize = 0;
    while i < n
        invariant
            n == entry.name@.len(),
            i <= n,
            forall|j: int| 0 <= j < i ==> name_char(#[trigger] entry.name@[j]),
        decreases n - i,
    {
        let c: char = entry.name.as_str().get_char(i);
        let ok = ('a' <= c && c <= 'z') || ('A' <= c && c <= 'Z') || ('0' <= c && c <= '9') || c
            == '-' || c == '_' || c == '.';
        if !ok {
            assert(!name_char(entry.name@[i as int]));
            let e = "remote name '".to_owned().concat(entry.name.as_str()).concat(
                "' may only contain letters, digits, '-', '_' and '.'",
            );
            return Err(e);
        }
        i = i + 1;
    }
    Ok(())
}

/// The list with the entry of that name replaced, or with it appended.
pub open spec fn upserted(list: Seq<RemoteEntry>, entry: RemoteEntry) -> Seq<RemoteEntry> {
    crate::seqs::put(list, entry_named(entry.name@), entry)
}

/// Puts `entry` in the place of the entry of its name, or at the end.
pub fn upsert_in(remotes: &mut Vec<RemoteEntry>, entry: RemoteEntry)
    ensures
        final(remotes)@ == upserted(old(remotes)@, entry),
{
    let i: usize = position(remotes.as_slice(), entry.name.as_str());
    if i < remotes.len() {
        remotes[i] = entry;
    } else {
        remotes.push(entry);
    }
}

/// The position of the first entry of that name, or the length.
pub fn position(remotes: &[RemoteEntry], name: &str) -> (r: usize)
    ensures
        r == first_index(remotes@, entry_named(name@)),
        r <= remotes@.len(),
        r < remotes@.len() <==> any(remotes@, entry_named(name@)),
        r < remotes@.len() ==> remotes@[r as int].name@ == name@,
{
    let test = |e: &RemoteEntry| -> (b: bool)
        ensures
            b == (e.name@ == name@),
        { same(e.name.as_str(), name) };
    find(remotes, test, Ghost(entry_named(name@)))
}

/// Takes every entry of that name out.
pub fn remove_in(remotes: &mut Vec<RemoteEntry>, name: &str)
    ensures
        final(remotes)@ == old(remotes)@.filter(entry_not(name@)),
{
    let test = |e: &RemoteEntry| -> (b: bool)
        ensures
            b == (e.name@ != name@),
        { !same(e.name.as_str(), name) };
    keep(remotes, test, Ghost(entry_not(name@)));
}

/// The list with the first entry of that name enabled or disabled.
pub open spec fn with_enabled(list: Seq<RemoteEntry>, name: Seq<char>, enabled: bool) -> Seq<
    RemoteEntry,
> {
    crate::seqs::alter(
        list,
        entry_named(name),
        |e: RemoteEntry| RemoteEntry { enabled, ..e },
    )
}

/// Sets the named entry's `enabled` flag; an unknown name changes nothing.
pub fn set_enabled_in(remotes: &mut Vec<RemoteEntry>, name: &str, enabled: bool)
    ensures
        final(remotes)@ == with_enabled(old(remotes)@, name@, enabled),
{
    let i: usize = position(remotes.as_slice(), name);
    if i < remotes.len() {
        remotes[i].enabled = enabled;
    }
}

/// The list with the named entry's `enabled` flag flipped.
pub open spec fn toggled(list: Seq<RemoteEntry>, name: Seq<char>) -> Seq<RemoteEntry> {
    match first_match(list, entry_named(name)) {
        Some(e) => with_enabled(list, name, !e.enabled),
        None => list,
    }
}

/// Flips the named entry's `enabled` flag as it stands in this list; an
/// unknown name changes nothing.
pub fn toggle_enabled_in(remotes: &mut Vec<RemoteEntry>, name: &str)
    ensures
        final(remotes)@ == toggled(old(remotes)@, name@),
{
    let i: usize = position(remotes.as_slice(), name);
    if i < remotes.len() {
        let enabled: bool = !remotes[i].enabled;
        set_enabled_in(remotes, name, enabled);
    }
}

/// Which way an entry moves in the list.
#[derive(Clone, Copy, PartialEq, Eq, Structural, Debug)]
pub enum MoveDirection {
    Up,
    Down,
}

/// The list with the named entry moved one slot; at the edge, unchanged.
pub open spec fn moved(list: Seq<RemoteEntry>, name: Seq<char>, direction: MoveDirection) -> Seq<
    RemoteEntry,
> {
    let i = first_index(list, entry_named(name));
    if i >= list.len() {
        list
    } else if direction == MoveDirection::Up {
        if i == 0 {
            list
        } else {
            list.remove(i).insert(i - 1, list[i])
        }
    } else {
        if i + 1 == list.len() {
            list
        } else {
            list.remove(i).insert(i + 1, list[i])
        }
    }
}

/// Moves the named entry one slot up or down.
pub fn move_in(remotes: &mut Vec<RemoteEntry>, name: &str, direction: MoveDirection)
    ensures
        final(remotes)@ == moved(old(remotes)@, name@, direction),
{
    let i: usize = position(remotes.as_slice(), name);
    let n: usize = remotes.len();
    if i < n {
        if direction == MoveDirection::Up && i > 0 {
            let entry = remotes.remove(i);
            remotes.insert(i - 1, entry);
        } else if direction == MoveDirection::Down && i + 1 < n {
            let entry = remotes.remove(i);
            remotes.insert(i + 1, entry);
        }
    }
}

/// What a dialog's save does to the list: a renamed entry leaves its old
/// name behind, and the entry takes its place under the new one.
pub open spec fn saved(
    list: Seq<RemoteEntry>,
    original: Option<Seq<char>>,
    entry: RemoteEntry,
) -> Seq<RemoteEntry> {
    match original {
        Some(name) if name != entry.name@ => upserted(list.filter(entry_not(name)), entry),
        _ => upserted(list, entry),
    }
}

/// Saves a dialog's entry: a renamed one is removed under its original name.
pub fn save_in(remotes: &mut Vec<RemoteEntry>, original: &Option<String>, entry: RemoteEntry)
    ensures
        final(remotes)@ == saved(old(remotes)@, crate::text::opt_view(*original), entry),
{
    if let Some(name) = original {
        if *name != entry.name {
            remove_in(remotes, name.as_str());
        }
    }
    upsert_in(remotes, entry);
}

/// Why an entry at a place of the list is refused: its name is not valid, or
/// an earlier entry has it.
pub open spec fn entry_refusal(list: Seq<RemoteEntry>, i: int) -> Option<Seq<char>> {
    if !valid_name(list[i].name@) {
        Some(name_refusal(list[i].name@))
    } else if any(list.take(i), entry_named(list[i].name@)) {
        Some("duplicate remote name '"@ + list[i].name@ + "'"@)
    } else {
        None
    }
}

/// Why the first `n` entries of a list are refused: the first of them that is.
pub open spec fn refusal_before(list: Seq<RemoteEntry>, n: int) -> Option<Seq<char>>
    decreases n,
{
    if n <= 0 {
        None
    } else {
        match refusal_before(list, n - 1) {
            Some(e) => Some(e),
            None => entry_refusal(list, n - 1),
        }
    }
}

/// Why a list is refused: the first entry that is.
pub open spec fn list_refusal(list: Seq<RemoteEntry>) -> Option<Seq<char>> {
    refusal_before(list, list.len() as int)
}

proof fn refusal_stays(list: Seq<RemoteEntry>, k: int, n: int)
    requires
        0 <= k <= n,
        refusal_before(list, k) is Some,
    ensures
        refusal_before(list, n) == refusal_before(list, k),
    decreases n - k,
{
    if k < n {
        refusal_stays(list, k, n - 1);
    }
}

/// Accepts a list whose names are valid and distinct.
pub fn validate_entries(list: &[RemoteEntry]) -> (r: Result<(), String>)
    ensures
        match r {
            Ok(_) => list_refusal(list@) is None,
            Err(e) => list_refusal(list@) == Some(e@),
        },
{
    let mut i: usize = 0;
    while i < list.len()
        invariant
            i <= list@.len(),
            refusal_before(list@, i as int) is None,
        decreases list@.len() - i,
    {
        if let Err(e) = validate_entry(&list[i]) {
            proof {
                refusal_stays(list@, i + 1, list@.len() as int);
            }
            return Err(e);
        }
        let first: usize = position(list, list[i].name.as_str());
        proof {
            let p = entry_named(list@[i as int].name@);
            crate::seqs::first_index_props(list@, p);
            if first < i {
                assert(list@.take(i as int)[first as int] == list@[first as int]);
            }
            if any(list@.take(i as int), p) {
                let k = choose|k: int|
                    0 <= k < list@.take(i as int).len() && p(#[trigger] list@.take(i as int)[k]);
                assert(p(list@[k]));
            }
        }
        if first < i {
            proof {
                refusal_stays(list@, i + 1, list@.len() as int);
            }
            return Err(
                "duplicate remote name '".to_owned().concat(list[i].name.as_str()).concat("'"),
            );
        }
        i = i + 1;
    }
    Ok(())
}

} // verus!
