//! What trimming, spelling numbers and ordering texts come to.
use crate::text::{bytes_before, decimal, is_blank, trimmed, without_leading, without_trailing};
use vstd::prelude::*;

verus! {

/// The number that a run of decimal digits spells.
pub open spec fn spelled(t: Seq<char>) -> nat
    decreases t.len(),
{
    if t.len() == 0 {
        0
    } else {
        spelled(t.drop_last()) * 10 + (t.last() as nat - '0' as nat) as nat
    }
}

/// A number is spelled in digits, without a leading zero, and spells itself.
pub proof fn numbers_spell_themselves(n: nat)
    ensures
        spelled(decimal(n)) == n,
        decimal(n).len() > 0,
        forall|i: int| 0 <= i < decimal(n).len() ==> '0' <= #[trigger] decimal(n)[i] && decimal(n)[i] <= '9',
        n > 0 ==> decimal(n)[0] != '0',
    decreases n,
{
    if n >= 10 {
        numbers_spell_themselves(n / 10);
        assert(decimal(n).drop_last() =~= decimal(n / 10));
    } else {
        assert(decimal(n).drop_last() =~= Seq::<char>::empty());
        assert(spelled(Seq::<char>::empty()) == 0);
    }
}

/// Trimming takes blanks off both ends and nothing else: what is left begins
/// and ends with no blank, stands in the text, and all around it is blank.
pub proof fn trimming_takes_the_blanks(t: Seq<char>)
    ensures
        trimmed(t).len() > 0 ==> !is_blank(trimmed(t)[0]) && !is_blank(trimmed(t).last()),
        exists|a: int, b: int|
            0 <= a <= b <= t.len() && trimmed(t) == #[trigger] t.subrange(a, b) && (forall|i: int|
                0 <= i < a ==> is_blank(#[trigger] t[i])) && (forall|i: int|
                b <= i < t.len() ==> is_blank(#[trigger] t[i])),
{
    let head = leading(t);
    let rest = without_leading(t);
    let keep = trailing(rest);
    let r = trimmed(t);
    assert(r == rest.take(keep));
    assert(r =~= t.subrange(head, head + keep));
    assert forall|i: int| head + keep <= i < t.len() implies is_blank(#[trigger] t[i]) by {
        assert(rest[i - head] == t[i]);
    }
    if r.len() > 0 {
        assert(r[0] == rest[0]);
        assert(rest[0] == t[head]);
    }
}

/// How many blanks a text begins with.
proof fn leading(t: Seq<char>) -> (n: int)
    ensures
        0 <= n <= t.len(),
        without_leading(t) == t.skip(n),
        forall|i: int| 0 <= i < n ==> is_blank(#[trigger] t[i]),
        n < t.len() ==> !is_blank(t[n]),
    decreases t.len(),
{
    if t.len() > 0 && is_blank(t[0]) {
        let m = leading(t.drop_first());
        assert(t.drop_first().skip(m) =~= t.skip(m + 1));
        assert forall|i: int| 0 <= i < m + 1 implies is_blank(#[trigger] t[i]) by {
            if i > 0 {
                assert(t.drop_first()[i - 1] == t[i]);
            }
        }
        if m + 1 < t.len() {
            assert(t.drop_first()[m] == t[m + 1]);
        }
        m + 1
    } else {
        assert(t.skip(0) =~= t);
        0
    }
}

/// How much of a text is before the blanks it ends with.
proof fn trailing(t: Seq<char>) -> (n: int)
    ensures
        0 <= n <= t.len(),
        without_trailing(t) == t.take(n),
        forall|i: int| n <= i < t.len() ==> is_blank(#[trigger] t[i]),
        n > 0 ==> !is_blank(t[n - 1]),
    decreases t.len(),
{
    if t.len() > 0 && is_blank(t.last()) {
        let m = trailing(t.drop_last());
        assert(t.drop_last().take(m) =~= t.take(m));
        assert forall|i: int| m <= i < t.len() implies is_blank(#[trigger] t[i]) by {
            if i < t.len() - 1 {
                assert(t.drop_last()[i] == t[i]);
            }
        }
        m
    } else {
        assert(t.take(t.len() as int) =~= t);
        t.len() as int
    }
}

/// The usual blanks are blanks; letters, digits and dashes are not.
pub proof fn blanks_are_blank(c: char)
    ensures
        is_blank(' ') && is_blank('\t') && is_blank('\n') && is_blank('\r'),
        '!' <= c && c <= '~' ==> !is_blank(c),
{
}

/// Of two lists of bytes the one that is a part of the other comes first;
/// otherwise the smaller byte at the first difference decides.
pub proof fn bytes_are_ordered(a: Seq<u8>, b: Seq<u8>, x: u8, y: u8, p: Seq<u8>)
    ensures
        bytes_before(p, p.push(x)),
        !bytes_before(p, p),
        x < y ==> bytes_before(p.push(x) + a, p.push(y) + b) && !bytes_before(
            p.push(y) + b,
            p.push(x) + a,
        ),
    decreases p.len(),
{
    if p.len() == 0 {
        assert((p.push(x) + a)[0] == x);
        assert((p.push(y) + b)[0] == y);
    } else {
        let q = p.drop_first();
        bytes_are_ordered(a, b, x, y, q);
        assert(p.push(x).drop_first() =~= q.push(x));
        assert((p.push(x) + a).drop_first() =~= q.push(x) + a);
        assert((p.push(y) + b).drop_first() =~= q.push(y) + b);
        assert((p.push(x) + a)[0] == p[0]);
        assert((p.push(y) + b)[0] == p[0]);
    }
}

} // verus!
