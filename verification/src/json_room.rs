//! How much room values take on the wire.
use crate::json::{canonical_members, members_room, placed, quoted_room, room, JsonView};
use crate::seqs::first_index_props;
use crate::text::decimal;
use vstd::prelude::*;
use vstd::utf8::encode_utf8;

verus! {

/// A character takes at most four bytes.
pub proof fn utf8_is_short(t: Seq<char>)
    ensures
        encode_utf8(t).len() <= 4 * t.len(),
    decreases t.len(),
{
    if t.len() > 0 {
        utf8_is_short(t.drop_first());
    }
}

/// Two texts take as much together as each by itself.
pub proof fn utf8_adds_up(a: Seq<char>, b: Seq<char>)
    ensures
        encode_utf8(a + b).len() == encode_utf8(a).len() + encode_utf8(b).len(),
    decreases a.len(),
{
    if a.len() == 0 {
        assert(a + b =~= b);
    } else {
        assert((a + b).drop_first() =~= a.drop_first() + b);
        utf8_adds_up(a.drop_first(), b);
    }
}

spec fn tens(k: nat) -> nat
    decreases k,
{
    if k == 0 {
        1
    } else {
        10 * tens((k - 1) as nat)
    }
}

proof fn digits_below(n: nat, k: nat)
    requires
        k > 0,
        n < tens(k),
    ensures
        decimal(n).len() <= k,
    decreases k,
{
    if n >= 10 {
        if k == 1 {
            reveal_with_fuel(tens, 2);
        } else {
            assert(n / 10 < tens((k - 1) as nat));
            digits_below(n / 10, (k - 1) as nat);
        }
    }
}

/// A machine number has at most twenty digits.
pub proof fn numbers_are_short(n: u64)
    ensures
        decimal(n as nat).len() <= 20,
{
    assert(tens(20) == 100_000_000_000_000_000_000) by {
        reveal_with_fuel(tens, 21);
    }
    digits_below(n as nat, 20);
}

/// The room that a member takes at most.
pub open spec fn member_room(name: Seq<char>, value: JsonView) -> nat {
    quoted_room(name) + room(value) + 2
}

proof fn inserted_room(s: Seq<(Seq<char>, JsonView)>, i: int, m: (Seq<char>, JsonView), n: nat)
    requires
        0 <= i <= s.len(),
        n <= s.len(),
    ensures
        n <= i ==> members_room(s.insert(i, m), n) == members_room(s, n),
        n >= i ==> members_room(s.insert(i, m), n + 1) == members_room(s, n) + member_room(
            m.0,
            m.1,
        ),
    decreases n,
{
    let r = s.insert(i, m);
    if n > 0 {
        inserted_room(s, i, m, (n - 1) as nat);
    }
    if n < i {
        assert(n > 0 ==> r[n - 1] == s[n - 1]);
    } else if n == i {
        assert(r[n as int] == m);
        assert(n > 0 ==> r[n - 1] == s[n - 1]);
        assert(members_room(r, n + 1) == members_room(r, n) + member_room(m.0, m.1));
    } else {
        assert(r[n as int] == s[n - 1]);
        assert(members_room(r, n + 1) == members_room(r, n) + member_room(s[n - 1].0, s[n - 1].1));
    }
}

proof fn updated_room(s: Seq<(Seq<char>, JsonView)>, i: int, m: (Seq<char>, JsonView), n: nat)
    requires
        0 <= i < s.len(),
        n <= s.len(),
    ensures
        members_room(s.update(i, m), n) <= members_room(s, n) + member_room(m.0, m.1),
        n <= i ==> members_room(s.update(i, m), n) == members_room(s, n),
    decreases n,
{
    if n > 0 {
        updated_room(s, i, m, (n - 1) as nat);
        assert(n - 1 != i ==> s.update(i, m)[n - 1] == s[n - 1]);
    }
}

/// A member that finds its place takes no more than its own room.
pub proof fn placed_room(s: Seq<(Seq<char>, JsonView)>, name: Seq<char>, value: JsonView)
    ensures
        members_room(placed(s, name, value), placed(s, name, value).len()) <= members_room(
            s,
            s.len(),
        ) + member_room(name, value),
{
    let p = crate::json::not_before::<JsonView>(name);
    first_index_props(s, p);
    let i = crate::seqs::first_index(s, p);
    if i < s.len() && s[i].0 == name {
        updated_room(s, i, (name, value), s.len());
    } else {
        inserted_room(s, i, (name, value), s.len());
    }
}

/// On the wire the first `n` members take no more room than one by one.
pub proof fn canonical_room(members: Seq<(Seq<char>, JsonView)>, n: nat)
    requires
        0 < n <= members.len(),
    ensures
        ({
            let before = canonical_members(members, (n - 1) as nat);
            let all = canonical_members(members, n);
            members_room(all, all.len()) <= members_room(before, before.len()) + member_room(
                members[n - 1].0,
                crate::json::canonical(members[n - 1].1),
            )
        }),
{
    placed_room(
        canonical_members(members, (n - 1) as nat),
        members[n - 1].0,
        crate::json::canonical(members[n - 1].1),
    );
}

} // verus!
