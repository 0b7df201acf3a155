//! Paging backward through a captured history.
use crate::json::{Json, JsonView};
use crate::text::{decimal, decimal_text, digit, opt_view, same};
use vstd::prelude::*;
use vstd::string::*;
use vstd::utf8::{
    decode_utf8, decode_utf8_encode_utf8, decode_utf8_split, encode_utf8, encode_utf8_decode_utf8,
    encode_utf8_valid_utf8, is_char_boundary, is_char_boundary_iff_not_is_continuation_byte,
    is_char_boundary_start_end_of_seq, length_of_first_scalar, pop_first_scalar, valid_utf8,
    valid_utf8_split,
};

verus! {

/// The page a client gets when it names no size.
pub const HISTORY_PAGE_DEFAULT_BYTES: usize = 65_536;

/// The smallest page that is served.
pub const HISTORY_PAGE_MIN_BYTES: usize = 4_096;

/// The largest page a client may ask for.
pub const HISTORY_FETCH_MAX_BYTES: usize = 1_048_576;

/// The largest page that is served. Escaping makes a byte up to six long, so
/// a page of this size still fits a frame.
pub const HISTORY_PAGE_SERVED_MAX_BYTES: usize = 524_288;

const NEWLINE: u8 = 10;

/// A place in a stream's history: everything before the offset is still to
/// be read.
#[derive(Clone, PartialEq, Eq, Debug)]
pub struct HistoryCursor {
    pub pane_id: String,
    pub sequence: u64,
    pub stream_id: u32,
    pub offset: u64,
}

pub struct CursorModel {
    pub pane_id: Seq<char>,
    pub sequence: u64,
    pub stream_id: u32,
    pub offset: u64,
}

impl View for HistoryCursor {
    type V = CursorModel;

    open spec fn view(&self) -> CursorModel {
        CursorModel {
            pane_id: self.pane_id@,
            sequence: self.sequence,
            stream_id: self.stream_id,
            offset: self.offset,
        }
    }
}

/// A cursor's text. Clients hand it back as it is.
pub open spec fn cursor_text(c: CursorModel) -> Seq<char> {
    decimal(c.stream_id as nat) + "."@ + decimal(c.sequence as nat) + "."@ + decimal(
        c.offset as nat,
    ) + "."@ + c.pane_id
}

/// Writes a cursor.
pub fn encode_history_cursor(c: &HistoryCursor) -> (r: String)
    ensures
        r@ == cursor_text(c@),
{
    decimal_text(c.stream_id as u64).concat(".").concat(decimal_text(c.sequence).as_str()).concat(
        ".",
    ).concat(decimal_text(c.offset).as_str()).concat(".").concat(c.pane_id.as_str())
}

pub open spec fn is_digit(c: char) -> bool {
    '0' <= c && c <= '9'
}

pub open spec fn digit_number(c: char) -> nat {
    (c as nat - '0' as nat) as nat
}

/// The number that digits spell.
pub open spec fn number_of(t: Seq<char>) -> nat
    decreases t.len(),
{
    if t.len() == 0 {
        0
    } else {
        number_of(t.drop_last()) * 10 + digit_number(t.last())
    }
}

/// Whether a text holds only digits.
pub open spec fn all_digits(t: Seq<char>) -> bool {
    forall|i: int| 0 <= i < t.len() ==> is_digit(#[trigger] t[i])
}

proof fn decimal_reads_back(n: nat)
    ensures
        all_digits(decimal(n)),
        number_of(decimal(n)) == n,
        decimal(n).len() > 0,
    decreases n,
{
    reveal_with_fuel(number_of, 2);
    if n < 10 {
        assert(decimal(n) =~= seq![digit(n)]);
        assert(decimal(n).drop_last() =~= Seq::<char>::empty());
    } else {
        decimal_reads_back(n / 10);
        assert(decimal(n).drop_last() =~= decimal(n / 10));
    }
}

proof fn number_grows(t: Seq<char>, n: int)
    requires
        0 <= n <= t.len(),
    ensures
        number_of(t.take(n)) <= number_of(t),
    decreases t.len() - n,
{
    if n == t.len() {
        assert(t.take(n) =~= t);
    } else {
        number_grows(t, n + 1);
        assert(t.take(n + 1).drop_last() =~= t.take(n));
    }
}

/// Whether digits stand in a text from one place up to a dot at another, and
/// spell a number of 64 bits.
pub open spec fn number_up_to(t: Seq<char>, from: int, dot: int) -> bool {
    &&& from <= dot < t.len()
    &&& t[dot] == '.'
    &&& all_digits(t.subrange(from, dot))
    &&& number_of(t.subrange(from, dot)) <= u64::MAX
}

/// Reads digits up to a dot; gives the number and the place behind the dot.
fn read_number(t: &str, from: usize) -> (r: Option<(u64, usize)>)
    requires
        from <= t@.len(),
    ensures
        match r {
            Some((n, next)) => number_up_to(t@, from as int, next - 1) && n == number_of(
                t@.subrange(from as int, next - 1),
            ),
            None => forall|dot: int| !#[trigger] number_up_to(t@, from as int, dot),
        },
{
    let len: usize = t.unicode_len();
    let mut i: usize = from;
    let mut n: u64 = 0;
    assert(t@.subrange(from as int, from as int) =~= Seq::<char>::empty());
    while i < len && t.get_char(i) != '.'
        invariant
            len == t@.len(),
            from <= i <= len,
            all_digits(t@.subrange(from as int, i as int)),
            n == number_of(t@.subrange(from as int, i as int)),
            forall|k: int| from <= k < i ==> #[trigger] t@[k] != '.',
        decreases len - i,
    {
        let c: char = t.get_char(i);
        let ghost part = t@.subrange(from as int, i + 1);
        assert(part.drop_last() =~= t@.subrange(from as int, i as int));
        if !('0' <= c && c <= '9') {
            assert forall|dot: int| !#[trigger] number_up_to(t@, from as int, dot) by {
                if number_up_to(t@, from as int, dot) {
                    assert(dot > i);
                    assert(t@.subrange(from as int, dot)[i - from] == c);
                }
            }
            return None;
        }
        let d: u64 = (c as u32 - '0' as u32) as u64;
        assert(d == digit_number(c));
        let next: Option<u64> = match n.checked_mul(10) {
            Some(m) => m.checked_add(d),
            None => None,
        };
        match next {
            Some(m) => {
                n = m;
            },
            None => {
                assert(number_of(part) > u64::MAX);
                assert forall|dot: int| !#[trigger] number_up_to(t@, from as int, dot) by {
                    if number_up_to(t@, from as int, dot) {
                        assert(dot > i);
                        let whole = t@.subrange(from as int, dot);
                        assert(whole.take(i + 1 - from) =~= part);
                        number_grows(whole, i + 1 - from);
                    }
                }
                return None;
            },
        }
        i = i + 1;
        assert(t@.subrange(from as int, i as int) =~= part);
    }
    if i == len {
        assert forall|dot: int| !#[trigger] number_up_to(t@, from as int, dot) by {
            if number_up_to(t@, from as int, dot) {
                assert(t@[dot] != '.');
            }
        }
        return None;
    }
    Some((n, i + 1))
}

/// A decimal that stands before a dot is what is read there.
proof fn reads_decimal(t: Seq<char>, from: int, n: nat, dot: int)
    requires
        0 <= from,
        n <= u64::MAX,
        from + decimal(n).len() < t.len(),
        t.subrange(from, from + decimal(n).len()) == decimal(n),
        t[from + decimal(n).len() as int] == '.',
    ensures
        number_up_to(t, from, from + decimal(n).len()),
        number_up_to(t, from, dot) ==> dot == from + decimal(n).len() && number_of(
            t.subrange(from, dot),
        ) == n,
{
    decimal_reads_back(n);
    let end = from + decimal(n).len();
    if number_up_to(t, from, dot) {
        if dot < end {
            assert(t.subrange(from, end)[dot - from] == '.');
        }
        if dot > end {
            assert(t.subrange(from, dot)[end - from] == '.');
        }
    }
}

/// Reads a cursor back; gives nothing for a text that no cursor has.
pub fn decode_history_cursor(t: &str) -> (r: Option<HistoryCursor>)
    ensures
        match r {
            Some(c) => t@ == cursor_text(c@),
            None => forall|c: CursorModel| #[trigger] cursor_text(c) != t@,
        },
{
    let ghost whole = t@;
    proof {
        reveal_strlit(".");
        assert forall|c: CursorModel| t@ == #[trigger] cursor_text(c) implies cursor_parts(
            whole,
            c,
        ) by {
            cursor_has_parts(c);
        }
    }
    let (stream, after_stream) = match read_number(t, 0) {
        Some(x) => x,
        None => {
            assert forall|c: CursorModel| #[trigger] cursor_text(c) != t@ by {
                if cursor_text(c) == t@ {
                    assert(cursor_parts(whole, c));
                    reads_decimal(whole, 0, c.stream_id as nat, 0);
                }
            }
            return None;
        },
    };
    let ghost first = after_stream - 1;
    let (sequence, after_sequence) = match read_number(t, after_stream) {
        Some(x) => x,
        None => {
            assert forall|c: CursorModel| #[trigger] cursor_text(c) != t@ by {
                if cursor_text(c) == t@ {
                    assert(cursor_parts(whole, c));
                    reads_decimal(whole, 0, c.stream_id as nat, first);
                    reads_decimal(whole, first + 1, c.sequence as nat, 0);
                }
            }
            return None;
        },
    };
    let ghost second = after_sequence - 1;
    let (offset, after_offset) = match read_number(t, after_sequence) {
        Some(x) => x,
        None => {
            assert forall|c: CursorModel| #[trigger] cursor_text(c) != t@ by {
                if cursor_text(c) == t@ {
                    assert(cursor_parts(whole, c));
                    reads_decimal(whole, 0, c.stream_id as nat, first);
                    reads_decimal(whole, first + 1, c.sequence as nat, second);
                    reads_decimal(whole, second + 1, c.offset as nat, 0);
                }
            }
            return None;
        },
    };
    let ghost third = after_offset - 1;
    let pane_id = text_from(t, after_offset);
    proof {
        assert forall|c: CursorModel| #[trigger] cursor_text(c) == t@ implies c.stream_id == stream
            && c.sequence == sequence && c.offset == offset && c.pane_id == pane_id@ by {
            assert(cursor_parts(whole, c));
            reads_decimal(whole, 0, c.stream_id as nat, first);
            reads_decimal(whole, first + 1, c.sequence as nat, second);
            reads_decimal(whole, second + 1, c.offset as nat, third);
            assert(pane_id@ =~= c.pane_id);
        }
    }
    if stream > u32::MAX as u64 {
        return None;
    }
    let c = HistoryCursor { pane_id, sequence, stream_id: stream as u32, offset };
    let again = encode_history_cursor(&c);
    if same(again.as_str(), t) {
        Some(c)
    } else {
        assert forall|d: CursorModel| #[trigger] cursor_text(d) != t@ by {
            if cursor_text(d) == t@ {
                assert(d == c@);
            }
        }
        None
    }
}

/// Where the parts of a cursor's text stand.
spec fn cursor_parts(t: Seq<char>, c: CursorModel) -> bool {
    let a = decimal(c.stream_id as nat).len() as int;
    let b = a + 1 + decimal(c.sequence as nat).len();
    let d = b + 1 + decimal(c.offset as nat).len();
    &&& d < t.len()
    &&& t.subrange(0, a) == decimal(c.stream_id as nat)
    &&& t[a] == '.'
    &&& t.subrange(a + 1, b) == decimal(c.sequence as nat)
    &&& t[b] == '.'
    &&& t.subrange(b + 1, d) == decimal(c.offset as nat)
    &&& t[d] == '.'
    &&& t.skip(d + 1) == c.pane_id
}

proof fn cursor_has_parts(c: CursorModel)
    ensures
        cursor_parts(cursor_text(c), c),
{
    reveal_strlit(".");
    let t = cursor_text(c);
    let a = decimal(c.stream_id as nat).len() as int;
    let b = a + 1 + decimal(c.sequence as nat).len();
    let d = b + 1 + decimal(c.offset as nat).len();
    assert(t.subrange(0, a) =~= decimal(c.stream_id as nat));
    assert(t.subrange(a + 1, b) =~= decimal(c.sequence as nat));
    assert(t.subrange(b + 1, d) =~= decimal(c.offset as nat));
    assert(t.skip(d + 1) =~= c.pane_id);
}

fn text_from(t: &str, from: usize) -> (r: String)
    requires
        from <= t@.len(),
    ensures
        r@ == t@.skip(from as int),
{
    let n: usize = t.unicode_len();
    let mut out = String::new();
    let mut i: usize = from;
    assert(t@.subrange(from as int, from as int) =~= out@);
    while i < n
        invariant
            n == t@.len(),
            from <= i <= n,
            out@ == t@.subrange(from as int, i as int),
        decreases n - i,
    {
        out.push(t.get_char(i));
        i = i + 1;
        assert(out@ =~= t@.subrange(from as int, i as int));
    }
    assert(out@ =~= t@.skip(from as int));
    out
}

/// Cursors that read the same are the same.
pub proof fn cursors_read_back(a: CursorModel, b: CursorModel)
    requires
        cursor_text(a) == cursor_text(b),
    ensures
        a == b,
{
    cursor_has_parts(a);
    cursor_has_parts(b);
    let t = cursor_text(a);
    let first = decimal(a.stream_id as nat).len() as int;
    reads_decimal(t, 0, b.stream_id as nat, first);
    reads_decimal(t, 0, a.stream_id as nat, first);
    let second = first + 1 + decimal(a.sequence as nat).len();
    reads_decimal(t, first + 1, a.sequence as nat, second);
    reads_decimal(t, first + 1, b.sequence as nat, second);
    let third = second + 1 + decimal(a.offset as nat).len();
    reads_decimal(t, second + 1, a.offset as nat, third);
    reads_decimal(t, second + 1, b.offset as nat, third);
}

/// The first place from `s` on, before `end`, at which a line starts.
pub open spec fn line_start_from(b: Seq<u8>, s: int, end: int) -> Option<int>
    decreases end - s,
{
    if s >= end || s <= 0 {
        None
    } else if b[s - 1] == 10 {
        Some(s)
    } else {
        line_start_from(b, s + 1, end)
    }
}

/// The last character boundary at or before a place.
pub open spec fn boundary_before(b: Seq<u8>, i: int) -> int
    decreases i,
{
    if i <= 0 || is_char_boundary(b, i) {
        i
    } else {
        boundary_before(b, i - 1)
    }
}

/// Where the page that ends at `end` starts: at the top if the rest fits, at
/// the first line start within the budget, else inside a line.
pub open spec fn page_start(b: Seq<u8>, end: int, max: int) -> int {
    if end <= max {
        0
    } else {
        match line_start_from(b, end - max, end) {
            Some(s) => s,
            None => boundary_before(b, end - max),
        }
    }
}

/// Whether a page that ends at `end` ends inside a line.
pub open spec fn cut_mid_line(b: Seq<u8>, end: int) -> bool {
    0 < end < b.len() && b[end - 1] != 10
}

/// Where the page that ends at `end` starts.
pub fn history_page_start(content: &str, end: usize, max_bytes: usize) -> (r: usize)
    requires
        end <= encode_utf8(content@).len(),
        max_bytes > 0,
    ensures
        r == page_start(encode_utf8(content@), end as int, max_bytes as int),
{
    if end <= max_bytes {
        return 0;
    }
    let bytes: &[u8] = content.as_bytes();
    let from: usize = end - max_bytes;
    let mut s: usize = from;
    while s < end
        invariant
            bytes@ == encode_utf8(content@),
            from == end - max_bytes,
            0 < from <= s <= end <= bytes@.len(),
            line_start_from(bytes@, from as int, end as int) == line_start_from(
                bytes@,
                s as int,
                end as int,
            ),
        decreases end - s,
    {
        if bytes[s - 1] == NEWLINE {
            return s;
        }
        s = s + 1;
    }
    let mut i: usize = from;
    while i > 0 && !content.is_char_boundary(i)
        invariant
            i <= from,
            bytes@ == encode_utf8(content@),
            boundary_before(bytes@, from as int) == boundary_before(bytes@, i as int),
        decreases i,
    {
        i = i - 1;
    }
    i
}

/// Whether a page that ends at `end` ends inside a line.
pub fn history_page_end_cut_mid_line(content: &str, end: usize) -> (r: bool)
    ensures
        r == cut_mid_line(encode_utf8(content@), end as int),
{
    let bytes: &[u8] = content.as_bytes();
    0 < end && end < bytes.len() && bytes[end - 1] != NEWLINE
}

/// The text of a page.
pub open spec fn page_text(content: Seq<char>, start: int, end: int) -> Seq<char> {
    decode_utf8(encode_utf8(content).subrange(start, end))
}

proof fn first_boundary_is_near(b: Seq<u8>, i: int)
    requires
        valid_utf8(b),
        0 <= i <= b.len(),
    ensures
        i - 3 <= boundary_before(b, i) <= i,
        0 <= boundary_before(b, i),
        is_char_boundary(b, boundary_before(b, i)),
    decreases b.len(),
{
    is_char_boundary_start_end_of_seq(b);
    if i == b.len() || i == 0 {
    } else {
        let w = length_of_first_scalar(b);
        if i < w {
            no_boundary_inside(b, i);
        } else {
            let rest = pop_first_scalar(b);
            first_boundary_is_near(rest, i - w);
            boundary_shifts(b, i);
        }
    }
}

/// The bytes of the first character hold no boundary but their first.
proof fn no_boundary_inside(b: Seq<u8>, i: int)
    requires
        valid_utf8(b),
        b.len() > 0,
        0 <= i < length_of_first_scalar(b),
    ensures
        i <= 3,
        boundary_before(b, i) == 0,
    decreases i,
{
    reveal_with_fuel(is_char_boundary, 2);
    if i > 0 {
        no_boundary_inside(b, i - 1);
    }
}

/// A boundary behind the first character is one of the rest.
proof fn boundary_shifts(b: Seq<u8>, i: int)
    requires
        valid_utf8(b),
        b.len() > 0,
        length_of_first_scalar(b) <= i <= b.len(),
    ensures
        boundary_before(b, i) == boundary_before(
            pop_first_scalar(b),
            i - length_of_first_scalar(b),
        ) + length_of_first_scalar(b),
        forall|k: int|
            length_of_first_scalar(b) <= k <= b.len() ==> #[trigger] is_char_boundary(b, k)
                == is_char_boundary(pop_first_scalar(b), k - length_of_first_scalar(b)),
    decreases i,
{
    let w = length_of_first_scalar(b);
    let rest = pop_first_scalar(b);
    assert forall|k: int| w <= k <= b.len() implies #[trigger] is_char_boundary(b, k)
        == is_char_boundary(rest, k - w) by {
        reveal_with_fuel(is_char_boundary, 2);
    }
    if i > w && !is_char_boundary(b, i) {
        boundary_shifts(b, i - 1);
    }
}

proof fn line_starts_are_boundaries(b: Seq<u8>, s: int, end: int)
    requires
        valid_utf8(b),
        0 < s,
        end <= b.len(),
    ensures
        line_start_from(b, s, end) matches Some(k) ==> s <= k < end && b[k - 1] == 10
            && is_char_boundary(b, k),
    decreases end - s,
{
    if s < end {
        if b[s - 1] == 10 {
            after_newline(b, s);
        } else {
            line_starts_are_boundaries(b, s + 1, end);
        }
    }
}

/// The byte behind a line feed starts a character.
proof fn after_newline(b: Seq<u8>, s: int)
    requires
        valid_utf8(b),
        0 < s <= b.len(),
        b[s - 1] == 10,
    ensures
        is_char_boundary(b, s),
    decreases b.len(),
{
    let w = length_of_first_scalar(b);
    let rest = pop_first_scalar(b);
    reveal_with_fuel(is_char_boundary, 3);
    if s > w {
        assert(rest[s - w - 1] == b[s - 1]);
        after_newline(rest, s - w);
    } else if s < w {
        is_char_boundary_iff_not_is_continuation_byte(b, s - 1);
        assert(s == 1);
    }
}

/// Every page starts at a character, holds at least one, and is over its
/// budget by less than one.
pub proof fn pages_make_progress(content: Seq<char>, end: int, max: int)
    requires
        0 < max,
        is_char_boundary(encode_utf8(content), end),
        0 < end <= encode_utf8(content).len(),
    ensures
        0 <= page_start(encode_utf8(content), end, max) < end,
        is_char_boundary(encode_utf8(content), page_start(encode_utf8(content), end, max)),
        end - page_start(encode_utf8(content), end, max) <= max + 3,
{
    let b = encode_utf8(content);
    encode_utf8_valid_utf8(content);
    is_char_boundary_start_end_of_seq(b);
    if end > max {
        line_starts_are_boundaries(b, end - max, end);
        first_boundary_is_near(b, end - max);
    }
}

/// A page that starts at a line start leaves the page before it uncut, and
/// the end of the capture is never a cut.
pub proof fn aligned_pages_are_not_cut(content: Seq<char>, end: int, max: int)
    requires
        0 < max < end <= encode_utf8(content).len(),
    ensures
        line_start_from(encode_utf8(content), end - max, end) is Some ==> !cut_mid_line(
            encode_utf8(content),
            page_start(encode_utf8(content), end, max),
        ),
        !cut_mid_line(encode_utf8(content), encode_utf8(content).len() as int),
{
    encode_utf8_valid_utf8(content);
    line_starts_are_boundaries(encode_utf8(content), end - max, end);
}

/// The texts of the pages from `end` back to the top, put together again.
/// The `n`th page asks for `max(n)` bytes.
pub open spec fn rejoined(
    content: Seq<char>,
    end: int,
    max: spec_fn(nat) -> int,
    n: nat,
) -> Seq<char>
    decreases end,
{
    let start = page_start(encode_utf8(content), end, max(n));
    if end <= 0 {
        Seq::empty()
    } else if 0 < start < end {
        rejoined(content, start, max, n + 1) + page_text(content, start, end)
    } else {
        page_text(content, start, end)
    }
}

/// A page and all that is before it are all that is before its end.
pub proof fn page_joins_what_is_before(content: Seq<char>, start: int, end: int)
    requires
        0 <= start < end <= encode_utf8(content).len(),
        is_char_boundary(encode_utf8(content), start),
        is_char_boundary(encode_utf8(content), end),
    ensures
        page_text(content, 0, end) == page_text(content, 0, start) + page_text(
            content,
            start,
            end,
        ),
{
    let b = encode_utf8(content);
    encode_utf8_valid_utf8(content);
    let young = b.subrange(0, end);
    valid_utf8_split(b, end);
    boundary_of_prefix(b, start, end);
    decode_utf8_split(young, start);
    assert(young.subrange(0, start) =~= b.subrange(0, start));
    assert(young.subrange(start, end) =~= b.subrange(start, end));
}

/// All that is before the end of a capture is the capture.
pub proof fn whole_page(content: Seq<char>)
    ensures
        page_text(content, 0, encode_utf8(content).len() as int) == content,
        is_char_boundary(encode_utf8(content), encode_utf8(content).len() as int),
{
    let b = encode_utf8(content);
    encode_utf8_valid_utf8(content);
    is_char_boundary_start_end_of_seq(b);
    assert(b.subrange(0, b.len() as int) =~= b);
    encode_utf8_decode_utf8(content);
}

proof fn rejoined_prefix(content: Seq<char>, end: int, max: spec_fn(nat) -> int, n: nat)
    requires
        forall|k: nat| 0 < #[trigger] max(k),
        0 <= end <= encode_utf8(content).len(),
        is_char_boundary(encode_utf8(content), end),
    ensures
        rejoined(content, end, max, n) == page_text(content, 0, end),
    decreases end,
{
    let b = encode_utf8(content);
    if end == 0 {
        assert(b.subrange(0, 0) =~= Seq::<u8>::empty());
    } else {
        pages_make_progress(content, end, max(n));
        let start = page_start(b, end, max(n));
        if start > 0 {
            rejoined_prefix(content, start, max, n + 1);
            page_joins_what_is_before(content, start, end);
        }
    }
}

/// A boundary inside a prefix that ends at a boundary is one of the prefix.
proof fn boundary_of_prefix(b: Seq<u8>, i: int, end: int)
    requires
        valid_utf8(b),
        0 <= i < end <= b.len(),
        is_char_boundary(b, i),
        is_char_boundary(b, end),
    ensures
        valid_utf8(b.subrange(0, end)),
        is_char_boundary(b.subrange(0, end), i),
{
    valid_utf8_split(b, end);
    let p = b.subrange(0, end);
    is_char_boundary_iff_not_is_continuation_byte(b, i);
    is_char_boundary_iff_not_is_continuation_byte(p, i);
    assert(p[i] == b[i]);
}

/// A page holds exactly the bytes between its two places.
pub proof fn pages_hold_their_bytes(content: Seq<char>, start: int, end: int)
    requires
        0 <= start <= end <= encode_utf8(content).len(),
        is_char_boundary(encode_utf8(content), start),
        is_char_boundary(encode_utf8(content), end),
    ensures
        encode_utf8(page_text(content, start, end)) == encode_utf8(content).subrange(start, end),
{
    let b = encode_utf8(content);
    encode_utf8_valid_utf8(content);
    valid_utf8_split(b, end);
    let p = b.subrange(0, end);
    if start < end {
        boundary_of_prefix(b, start, end);
    } else {
        is_char_boundary_start_end_of_seq(p);
    }
    valid_utf8_split(p, start);
    assert(p.subrange(start, end) =~= b.subrange(start, end));
    decode_utf8_encode_utf8(b.subrange(start, end));
}

/// Walking a capture from its end gives all of it back, with nothing lost
/// and nothing twice, whatever size each page asks for.
pub proof fn pages_rejoin_the_capture(content: Seq<char>, max: spec_fn(nat) -> int)
    requires
        forall|n: nat| 0 < #[trigger] max(n),
    ensures
        rejoined(content, encode_utf8(content).len() as int, max, 0) == content,
{
    whole_page(content);
    rejoined_prefix(content, encode_utf8(content).len() as int, max, 0);
}

/// Cuts a page out of a capture.
pub fn page_of(content: &str, start: usize, end: usize) -> (r: String)
    requires
        start <= end <= encode_utf8(content@).len(),
        is_char_boundary(encode_utf8(content@), start as int),
        is_char_boundary(encode_utf8(content@), end as int),
    ensures
        r@ == page_text(content@, start as int, end as int),
{
    let ghost b = encode_utf8(content@);
    proof {
        encode_utf8_valid_utf8(content@);
        valid_utf8_split(b, end as int);
        if start < end {
            boundary_of_prefix(b, start as int, end as int);
        } else {
            is_char_boundary_start_end_of_seq(b.subrange(0, end as int));
        }
    }
    let (head, _) = content.split_at(end);
    let (_, page) = head.split_at(start);
    let r = page.to_owned();
    proof {
        assert(page.spec_bytes() =~= b.subrange(start as int, end as int));
        encode_utf8_decode_utf8(page@);
    }
    r
}

/// A page as a client gets it.
#[derive(Clone, PartialEq, Eq, Debug)]
pub struct StreamHistory {
    pub stream_id: u32,
    pub content: String,
    /// Where the page before this one ends; none at the top.
    pub next_cursor: Option<String>,
    pub at_top: bool,
    /// Whether this page ends inside a line.
    pub end_cut_mid_line: bool,
}

pub struct PageModel {
    pub stream_id: u32,
    pub content: Seq<char>,
    pub next_cursor: Option<Seq<char>>,
    pub at_top: bool,
    pub end_cut_mid_line: bool,
}

impl View for StreamHistory {
    type V = PageModel;

    open spec fn view(&self) -> PageModel {
        PageModel {
            stream_id: self.stream_id,
            content: self.content@,
            next_cursor: opt_view(self.next_cursor),
            at_top: self.at_top,
            end_cut_mid_line: self.end_cut_mid_line,
        }
    }
}

/// A flag that is off where absent.
pub open spec fn flag(v: JsonView, key: Seq<char>) -> bool {
    v.field(key) matches Some(b) && b.boolean() == Some(true)
}

fn read_flag(v: &Json, key: &str) -> (r: bool)
    ensures
        r == flag(v@, key@),
{
    match v.get(key) {
        Some(b) => match b.as_bool() {
            Some(on) => on,
            None => false,
        },
        None => false,
    }
}

/// The page that an answer carries, if it carries one.
pub open spec fn page_in(v: JsonView) -> Option<PageModel> {
    match v.field("result"@) {
        Some(r) => if r.text_field("type"@) != Some("stream_history"@) {
            None
        } else {
            match (r.unsigned_field("stream_id"@), r.text_field("content"@)) {
                (Some(id), Some(content)) => if id > u32::MAX {
                    None
                } else {
                    Some(
                        PageModel {
                            stream_id: id as u32,
                            content,
                            next_cursor: r.text_field("next_cursor"@),
                            at_top: flag(r, "at_top"@),
                            end_cut_mid_line: flag(r, "end_cut_mid_line"@),
                        },
                    )
                },
                _ => None,
            }
        },
        None => None,
    }
}

/// Reads the answer to a `stream.history`.
pub fn parse_stream_history(response: &Json) -> (r: Option<StreamHistory>)
    ensures
        match r {
            Some(p) => page_in(response@) == Some(p@),
            None => page_in(response@) is None,
        },
{
    let result = match response.get("result") {
        Some(r) => r,
        None => return None,
    };
    match result.text_of("type") {
        Some(t) => {
            if !same(t, "stream_history") {
                return None;
            }
        },
        None => return None,
    }
    let id: u64 = match result.unsigned_of("stream_id") {
        Some(n) => n,
        None => return None,
    };
    let content = match result.text_of("content") {
        Some(t) => t.to_owned(),
        None => return None,
    };
    if id > u32::MAX as u64 {
        return None;
    }
    let next_cursor = match result.text_of("next_cursor") {
        Some(t) => Some(t.to_owned()),
        None => None,
    };
    Some(
        StreamHistory {
            stream_id: id as u32,
            content,
            next_cursor,
            at_top: read_flag(result, "at_top"),
            end_cut_mid_line: read_flag(result, "end_cut_mid_line"),
        },
    )
}

} // verus!
