//! Frames byte by byte, and where pages of history begin and end.
use crate::api::server::framed_session::{fits, page_budget, HistoryModel};
use crate::protocol::frame::{
    first_frame, frame_bytes, header_of, FrameError, FrameModel, FRAMED_MAGIC,
};
use crate::protocol::framed::FrameType;
use crate::protocol::history::{
    boundary_before, cursor_text, cut_mid_line, line_start_from, page_start, CursorModel,
};
use crate::text::decimal;
use vstd::bytes::{
    lemma_auto_spec_u32_to_from_le_bytes, spec_u32_from_le_bytes, spec_u32_to_le_bytes,
};
use vstd::prelude::*;
use vstd::utf8::{encode_utf8, is_char_boundary};

verus! {

/// A frame is its type, 1 for control and 2 for data, the stream's id and the
/// payload's length, each in four bytes with the low one first, and the
/// payload.
pub proof fn frames_are_laid_out(f: FrameModel)
    requires
        f.payload.len() <= u32::MAX,
    ensures
        ({
            let b = frame_bytes(f);
            &&& b.len() == 9 + f.payload.len()
            &&& b[0] == if f.frame_type == FrameType::Control {
                1u8
            } else {
                2u8
            }
            &&& spec_u32_from_le_bytes(b.subrange(1, 5)) == f.stream_id
            &&& spec_u32_from_le_bytes(b.subrange(5, 9)) == f.payload.len()
            &&& b.skip(9) == f.payload
        }),
        FRAMED_MAGIC@ == seq!['H', 'R', 'D', 'R'],
{
    lemma_auto_spec_u32_to_from_le_bytes();
    let b = frame_bytes(f);
    let id = spec_u32_to_le_bytes(f.stream_id);
    let len = spec_u32_to_le_bytes(f.payload.len() as u32);
    assert(b.subrange(1, 5) =~= id);
    assert(b.subrange(5, 9) =~= len);
    assert(b.skip(9) =~= f.payload);
    reveal_strlit("HRDR");
    assert(FRAMED_MAGIC@ =~= seq!['H', 'R', 'D', 'R']);
}

/// A header of another type is refused by its type, one of more than four
/// mebibytes by its length; everything else is read as it stands.
pub proof fn headers_are_checked(b: Seq<u8>)
    requires
        b.len() >= 9,
    ensures
        ({
            let n = spec_u32_from_le_bytes(b.subrange(5, 9));
            let id = spec_u32_from_le_bytes(b.subrange(1, 5));
            &&& b[0] != 1 && b[0] != 2 ==> (header_of(b) matches Err(FrameError::UnknownType(t)) && t
                == b[0])
            &&& (b[0] == 1 || b[0] == 2) && n > 4_194_304 ==> (header_of(b) matches Err(
                FrameError::Oversized(m),
            ) && m == n)
            &&& (b[0] == 1 || b[0] == 2) && n <= 4_194_304 ==> (header_of(b) matches Ok(h)
                && h.stream_id == id && h.payload_len == n && (h.frame_type == FrameType::Control
                <==> b[0] == 1))
        }),
        b.len() < 9 ==> first_frame(b) == Ok::<Option<(FrameModel, Seq<u8>)>, FrameError>(None),
{
}

/// The size of a page: 65536 bytes where none is asked for, never under 4096
/// and never over 524288, and what is asked for in between.
pub proof fn page_sizes_are_bounded(n: u64)
    ensures
        page_budget(None) == 65_536,
        n < 4_096 ==> page_budget(Some(n)) == 4_096,
        n > 524_288 ==> page_budget(Some(n)) == 524_288,
        4_096 <= n <= 524_288 ==> page_budget(Some(n)) == n,
{
}

/// Where a page starts: at the top where all that is before it fits; else at
/// the first start of a line that is within the budget.
pub proof fn pages_start_at_lines(b: Seq<u8>, end: int, max: int, at: int)
    requires
        0 < max,
        0 <= end <= b.len(),
    ensures
        end <= max ==> page_start(b, end, max) == 0,
        end > max && end - max <= at < end && b[at - 1] == 10 && (forall|j: int|
            end - max <= j < at ==> #[trigger] b[j - 1] != 10) ==> page_start(b, end, max) == at,
        end > max && (forall|j: int| end - max <= j < end ==> #[trigger] b[j - 1] != 10)
            ==> page_start(b, end, max) <= end - max,
{
    if end > max {
        if end - max <= at < end && b[at - 1] == 10 && (forall|j: int|
            end - max <= j < at ==> #[trigger] b[j - 1] != 10) {
            line_is_found(b, end - max, end, at);
        }
        if forall|j: int| end - max <= j < end ==> #[trigger] b[j - 1] != 10 {
            no_line_is_found(b, end - max, end);
            boundaries_are_before(b, end - max);
        }
    }
}

proof fn line_is_found(b: Seq<u8>, s: int, end: int, at: int)
    requires
        0 < s <= at < end,
        b[at - 1] == 10,
        forall|j: int| s <= j < at ==> #[trigger] b[j - 1] != 10,
    ensures
        line_start_from(b, s, end) == Some(at),
    decreases at - s,
{
    if s < at {
        assert(b[s - 1] != 10);
        line_is_found(b, s + 1, end, at);
    }
}

proof fn no_line_is_found(b: Seq<u8>, s: int, end: int)
    requires
        0 < s <= end,
        forall|j: int| s <= j < end ==> #[trigger] b[j - 1] != 10,
    ensures
        line_start_from(b, s, end) is None,
    decreases end - s,
{
    if s < end {
        assert(b[s - 1] != 10);
        no_line_is_found(b, s + 1, end);
    }
}

proof fn boundaries_are_before(b: Seq<u8>, i: int)
    ensures
        boundary_before(b, i) <= i,
        0 <= i ==> 0 <= boundary_before(b, i),
        0 < boundary_before(b, i) ==> is_char_boundary(b, boundary_before(b, i)),
    decreases i,
{
    if !(i <= 0 || is_char_boundary(b, i)) {
        boundaries_are_before(b, i - 1);
    }
}

/// A page is cut inside a line where it ends neither at an end of the text nor
/// behind a line break.
pub proof fn cuts_are_told(b: Seq<u8>, end: int)
    requires
        0 <= end <= b.len(),
    ensures
        cut_mid_line(b, end) <==> end != 0 && end != b.len() && b[end - 1] != 10,
{
}

/// A cursor names its stream, the sequence, the offset and the pane, with dots
/// between.
pub proof fn cursors_are_spelled_out(c: CursorModel)
    ensures
        cursor_text(c) == decimal(c.stream_id as nat) + "."@ + decimal(c.sequence as nat) + "."@
            + decimal(c.offset as nat) + "."@ + c.pane_id,
{
}

/// A cursor is a place of the capture it was made for: the same pane, the same
/// sequence, and an offset between two characters.
pub proof fn cursors_fit_their_capture(cursor: CursorModel, history: HistoryModel)
    ensures
        fits(cursor, history) ==> cursor.pane_id == history.pane_id && cursor.sequence
            == history.sequence && cursor.offset <= encode_utf8(history.content).len(),
        cursor.pane_id != history.pane_id || cursor.sequence != history.sequence ==> !fits(
            cursor,
            history,
        ),
        cursor.offset > encode_utf8(history.content).len() ==> !fits(cursor, history),
        !is_char_boundary(encode_utf8(history.content), cursor.offset as int) ==> !fits(
            cursor,
            history,
        ),
        cursor.pane_id == history.pane_id && cursor.sequence == history.sequence && cursor.offset
            <= encode_utf8(history.content).len() && is_char_boundary(
            encode_utf8(history.content),
            cursor.offset as int,
        ) ==> fits(cursor, history),
{
}

} // verus!
