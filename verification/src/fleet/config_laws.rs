//! What each edit of the configured fleet leaves to be found.
use crate::fleet::config::{
    entry_named, entry_not, entry_refusal, list_refusal, moved, refusal_before, saved, toggled,
    valid_name, MoveDirection, RemoteEntry,
};
use crate::seqs::{
    alter_elsewhere, alter_is_found, any, filter_is_found, filtered_is_gone, first_index,
    first_index_is, first_index_props, first_match, put_elsewhere, put_is_found,
};
use vstd::prelude::*;

verus! {

/// The entry of a name: the first that has it.
pub open spec fn entry(list: Seq<RemoteEntry>, name: Seq<char>) -> Option<RemoteEntry> {
    first_match(list, entry_named(name))
}

/// The entry of that name stands there.
pub open spec fn stands_at(list: Seq<RemoteEntry>, name: Seq<char>, at: int) -> bool {
    &&& 0 <= at < list.len()
    &&& list[at].name@ == name
    &&& forall|j: int| 0 <= j < at ==> (#[trigger] list[j]).name@ != name
}

/// Moving an entry up swaps it with the one before it, moving it down with
/// the one after it; nothing else moves. At the end of the list nothing does.
pub proof fn moves_swap_neighbours(list: Seq<RemoteEntry>, name: Seq<char>, at: int, j: int)
    requires
        stands_at(list, name, at),
        0 <= j < list.len(),
    ensures
        ({
            let up = moved(list, name, MoveDirection::Up);
            let down = moved(list, name, MoveDirection::Down);
            &&& up.len() == list.len() && down.len() == list.len()
            &&& at > 0 ==> up[at - 1] == list[at] && up[at] == list[at - 1]
            &&& at > 0 && j != at && j != at - 1 ==> up[j] == list[j]
            &&& at == 0 ==> up == list
            &&& at + 1 < list.len() ==> down[at + 1] == list[at] && down[at] == list[at + 1]
            &&& at + 1 < list.len() && j != at && j != at + 1 ==> down[j] == list[j]
            &&& at + 1 == list.len() ==> down == list
        }),
{
    first_index_is(list, entry_named(name), at);
}

/// Moving an entry up and then down again changes nothing.
pub proof fn moving_back_restores(list: Seq<RemoteEntry>, name: Seq<char>, at: int)
    requires
        stands_at(list, name, at),
        at > 0,
    ensures
        moved(moved(list, name, MoveDirection::Up), name, MoveDirection::Down) == list,
{
    let up = moved(list, name, MoveDirection::Up);
    first_index_is(list, entry_named(name), at);
    assert forall|j: int| 0 <= j < at - 1 implies (#[trigger] up[j]).name@ != name by {
        assert(up[j] == list[j]);
    }
    assert(stands_at(up, name, at - 1));
    first_index_is(up, entry_named(name), at - 1);
    let back = moved(up, name, MoveDirection::Down);
    assert(back =~= list);
}

/// Toggling turns the entry's flag over and leaves the rest of it, and every
/// other entry, as it was.
pub proof fn toggles_turn_one_flag(list: Seq<RemoteEntry>, name: Seq<char>, other: Seq<char>)
    requires
        other != name,
    ensures
        match (entry(list, name), entry(toggled(list, name), name)) {
            (Some(was), Some(e)) => e.enabled == !was.enabled && e == (RemoteEntry {
                enabled: e.enabled,
                ..was
            }),
            (None, None) => toggled(list, name) == list,
            _ => false,
        },
        entry(toggled(list, name), other) == entry(list, other),
        toggled(list, name).len() == list.len(),
{
    let p = entry_named(name);
    first_index_props(list, p);
    if let Some(e) = first_match(list, p) {
        let enabled = !e.enabled;
        let f = |e: RemoteEntry| RemoteEntry { enabled, ..e };
        let r = toggled(list, name);
        let at = first_index(list, p);
        assert(r == list.update(at, RemoteEntry { enabled, ..list[at] }));
        assert(crate::seqs::alter(list, p, f) =~= r);
        alter_is_found(list, p, f);
        alter_elsewhere(list, p, f, entry_named(other));
    }
}

/// A removed entry is gone; every other one stays.
pub proof fn removals_take_one_name(list: Seq<RemoteEntry>, name: Seq<char>, other: Seq<char>)
    requires
        other != name,
    ensures
        entry(list.filter(entry_not(name)), name) is None,
        entry(list.filter(entry_not(name)), other) == entry(list, other),
{
    filtered_is_gone(list, entry_not(name), entry_named(name));
    filter_is_found(list, entry_not(name), entry_named(other));
}

/// A saved entry is what is found under its name. Saved under a new name, it
/// is not found under the old one; every other entry stays.
pub proof fn saves_are_found(
    list: Seq<RemoteEntry>,
    original: Option<Seq<char>>,
    new: RemoteEntry,
    other: Seq<char>,
)
    requires
        other != new.name@,
        original != Some(other),
    ensures
        entry(saved(list, original, new), new.name@) == Some(new),
        entry(saved(list, original, new), other) == entry(list, other),
        original matches Some(name) ==> (name != new.name@ ==> entry(
            saved(list, original, new),
            name,
        ) is None),
        (original is None || original == Some(new.name@)) && entry(list, new.name@) is Some
            ==> saved(list, original, new).len() == list.len(),
{
    let p = entry_named(new.name@);
    let rest = match original {
        Some(name) if name != new.name@ => list.filter(entry_not(name)),
        _ => list,
    };
    first_index_props(rest, p);
    put_is_found(rest, p, new);
    put_elsewhere(rest, p, new, entry_named(other));
    if let Some(name) = original {
        if name != new.name@ {
            filtered_is_gone(list, entry_not(name), entry_named(name));
            filter_is_found(list, entry_not(name), entry_named(other));
            put_elsewhere(rest, p, new, entry_named(name));
        }
    }
}

/// A list is accepted exactly where every name is valid and no two entries
/// share one.
pub proof fn accepted_lists_have_distinct_names(list: Seq<RemoteEntry>)
    ensures
        list_refusal(list) is None <==> {
            &&& forall|i: int| 0 <= i < list.len() ==> valid_name((#[trigger] list[i]).name@)
            &&& forall|i: int, j: int|
                0 <= i < j < list.len() ==> (#[trigger] list[i]).name@ != (
                #[trigger] list[j]).name@
        },
{
    acceptance(list, list.len() as int);
}

proof fn acceptance(list: Seq<RemoteEntry>, n: int)
    requires
        0 <= n <= list.len(),
    ensures
        refusal_before(list, n) is None <==> {
            &&& forall|i: int| 0 <= i < n ==> valid_name((#[trigger] list[i]).name@)
            &&& forall|i: int, j: int|
                0 <= i < j < n ==> (#[trigger] list[i]).name@ != (#[trigger] list[j]).name@
        },
    decreases n,
{
    if n > 0 {
        acceptance(list, n - 1);
        let name = list[n - 1].name@;
        let part = list.take(n - 1);
        let p = entry_named(name);
        if any(part, p) {
            let i = choose|i: int| 0 <= i < part.len() && p(#[trigger] part[i]);
            assert(list[i].name@ == list[n - 1].name@);
        } else {
            assert forall|i: int| 0 <= i < n - 1 implies (#[trigger] list[i]).name@ != name by {
                assert(part[i] == list[i]);
                assert(!p(part[i]));
            }
        }
    }
}

/// What a refused list is told: of the first entry that does not fit, what is
/// wrong with it.
pub proof fn refusals_name_the_first_fault(list: Seq<RemoteEntry>, at: int)
    requires
        0 <= at < list.len(),
        refusal_before(list, at) is None,
    ensures
        list[at].name@.len() == 0 ==> list_refusal(list) == Some("remote name must not be empty"@),
        list[at].name@.len() > 0 && !valid_name(list[at].name@) ==> list_refusal(list) == Some(
            "remote name '"@ + list[at].name@
                + "' may only contain letters, digits, '-', '_' and '.'"@,
        ),
        valid_name(list[at].name@) && (exists|j: int|
            0 <= j < at && (#[trigger] list[j]).name@ == list[at].name@) ==> list_refusal(list)
            == Some("duplicate remote name '"@ + list[at].name@ + "'"@),
{
    let name = list[at].name@;
    if exists|j: int| 0 <= j < at && (#[trigger] list[j]).name@ == name {
        let j = choose|j: int| 0 <= j < at && (#[trigger] list[j]).name@ == name;
        assert(list.take(at)[j] == list[j]);
        assert(entry_named(name)(list.take(at)[j]));
    }
    if entry_refusal(list, at) is Some {
        first_fault(list, at, list.len() as int);
    }
}

proof fn first_fault(list: Seq<RemoteEntry>, at: int, n: int)
    requires
        0 <= at < n <= list.len(),
        refusal_before(list, at) is None,
        entry_refusal(list, at) is Some,
    ensures
        refusal_before(list, n) == entry_refusal(list, at),
    decreases n,
{
    if n > at + 1 {
        first_fault(list, at, n - 1);
    }
}

/// A valid name is letters, digits, dashes, underscores and dots, at least
/// one.
pub proof fn valid_names_are_plain(name: Seq<char>, i: int)
    requires
        valid_name(name),
        0 <= i < name.len(),
    ensures
        name.len() > 0,
        name[i] != ' ' && name[i] != '/' && name[i] != ':' && name[i] != '\'',
        ('a' <= name[i] && name[i] <= 'z') || ('A' <= name[i] && name[i] <= 'Z') || ('0' <= name[i]
            && name[i] <= '9') || name[i] == '-' || name[i] == '_' || name[i] == '.',
{
}

} // verus!
