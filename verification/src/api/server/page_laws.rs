//! What a client gets that walks back through a capture.
use crate::api::server::framed_session::{
    cursor_of, fits, history_is_another_method, is_cursor, page_budget, page_fits, page_view,
    short_names, HistoryModel, ServedModel, StepModel,
};
use crate::api::server::laws::pages_are_read_as_served;
use crate::api::server::requests::{history_params, RequestModel};
use crate::json::{canonical, canonical_members, room, JsonView};
use crate::json_room::{
    canonical_room, member_room, numbers_are_short, utf8_adds_up, utf8_is_short,
};
use crate::protocol::frame::MAX_FRAME_PAYLOAD;
use crate::protocol::framed::{CAPABILITY_PANE_STREAM, STREAM_HISTORY_METHOD};
use crate::protocol::history::{
    cursor_text, cursors_read_back, page_in, page_joins_what_is_before, page_start, page_text,
    pages_hold_their_bytes, pages_make_progress, whole_page, CursorModel,
    HISTORY_PAGE_SERVED_MAX_BYTES,
};
use crate::seqs::first_index;
use crate::text::decimal;
use vstd::prelude::*;
use vstd::string::*;
use vstd::utf8::{
    encode_utf8, encode_utf8_valid_utf8, is_char_boundary, is_char_boundary_start_end_of_seq,
};

verus! {

/// A cursor's text takes little more than its pane's id.
proof fn cursors_take_little_room(c: CursorModel)
    ensures
        encode_utf8(cursor_text(c)).len() <= 4 * 63 + encode_utf8(c.pane_id).len(),
{
    reveal_strlit(".");
    numbers_are_short(c.stream_id as u64);
    numbers_are_short(c.sequence);
    numbers_are_short(c.offset);
    let head = decimal(c.stream_id as nat) + "."@ + decimal(c.sequence as nat) + "."@ + decimal(
        c.offset as nat,
    ) + "."@;
    utf8_is_short(head);
    utf8_adds_up(head, c.pane_id);
}

/// A member with a short name takes at most so much.
proof fn named_room(name: Seq<char>, value: JsonView)
    requires
        name.len() <= 16,
    ensures
        member_room(name, value) <= 388 + room(value),
{
    utf8_is_short(name);
}

/// A page takes no more room than a frame has, where the names are short.
pub proof fn pages_take_little_room(
    id: Seq<char>,
    cursor: CursorModel,
    content: Seq<char>,
    budget: int,
)
    requires
        0 < budget <= HISTORY_PAGE_SERVED_MAX_BYTES,
        cursor.offset <= encode_utf8(content).len(),
        is_char_boundary(encode_utf8(content), cursor.offset as int),
        short_names(id, cursor.pane_id),
    ensures
        room(canonical(page_view(id, cursor, content, budget))) <= MAX_FRAME_PAYLOAD,
{
    let b = encode_utf8(content);
    let end = cursor.offset as int;
    let start = page_start(b, end, budget);
    encode_utf8_valid_utf8(content);
    if end > 0 {
        pages_make_progress(content, end, budget);
    } else {
        is_char_boundary_start_end_of_seq(b);
    }
    pages_hold_their_bytes(content, start, end);
    cursors_take_little_room(CursorModel { offset: start as u64, ..cursor });
    let page = page_view(id, cursor, content, budget);
    let outer = page->Object_0;
    let inner = outer[1].1->Object_0;
    reveal_strlit("type");
    reveal_strlit("stream_id");
    reveal_strlit("content");
    reveal_strlit("next_cursor");
    reveal_strlit("at_top");
    reveal_strlit("end_cut_mid_line");
    reveal_strlit("stream_history");
    reveal_strlit("id");
    reveal_strlit("result");
    utf8_is_short("stream_history"@);
    assert(inner.len() == 6 && outer.len() == 2);
    let wire = JsonView::Object(canonical_members(inner, 6));
    assert(canonical(outer[1].1) == wire);
    assert(room(wire) <= 2 + 6 * 388 + 386 + 20 + room(inner[2].1) + room(inner[3].1) + 10) by {
        inner_room(inner);
    }
    canonical_room(outer, 1);
    canonical_room(outer, 2);
    assert(canonical_members(outer, 0) =~= Seq::empty());
    named_room(outer[0].0, canonical(outer[0].1));
    named_room(outer[1].0, canonical(outer[1].1));
}

proof fn inner_room(inner: Seq<(Seq<char>, JsonView)>)
    requires
        inner.len() == 6,
        forall|i: int| 0 <= i < 6 ==> (#[trigger] inner[i]).0.len() <= 16,
        inner[0].1 is Text,
        room(inner[0].1) <= 386,
        inner[1].1 is Unsigned,
        inner[2].1 is Text,
        inner[3].1 is Text || inner[3].1 is Null,
        inner[4].1 is Bool,
        inner[5].1 is Bool,
    ensures
        room(JsonView::Object(canonical_members(inner, 6))) <= 2 + 6 * 388 + 386 + 20 + room(
            inner[2].1,
        ) + room(inner[3].1) + 10,
{
    canonical_room(inner, 1);
    canonical_room(inner, 2);
    canonical_room(inner, 3);
    canonical_room(inner, 4);
    canonical_room(inner, 5);
    canonical_room(inner, 6);
    assert(canonical_members(inner, 0) =~= Seq::empty());
    named_room(inner[0].0, canonical(inner[0].1));
    named_room(inner[1].0, canonical(inner[1].1));
    named_room(inner[2].0, canonical(inner[2].1));
    named_room(inner[3].0, canonical(inner[3].1));
    named_room(inner[4].0, canonical(inner[4].1));
    named_room(inner[5].0, canonical(inner[5].1));
}

/// What a client asks for at a cursor, page after page: a `stream.history`
/// that names the cursor, under any id and with any size.
pub open spec fn asks_for_pages(ask: spec_fn(nat, Seq<char>) -> RequestModel) -> bool {
    forall|n: nat, cursor: Seq<char>|
        {
            let q = #[trigger] ask(n, cursor);
            &&& q.method == STREAM_HISTORY_METHOD@
            &&& q.agreed(history_params(q.params)) matches Ok((text, _)) && text == cursor
        }
}

/// It asks under ids that leave every page room in its frame.
pub open spec fn asks_briefly(
    ask: spec_fn(nat, Seq<char>) -> RequestModel,
    pane_id: Seq<char>,
) -> bool {
    forall|n: nat, cursor: Seq<char>| short_names((#[trigger] ask(n, cursor)).id, pane_id)
}

/// The texts that a client gets from a cursor back to the top, oldest first,
/// if it gets there within so many more pages. It goes on wherever a page
/// hands out another cursor.
pub open spec fn walked(
    s: ServedModel,
    ask: spec_fn(nat, Seq<char>) -> RequestModel,
    cursor: Seq<char>,
    n: nat,
    more: nat,
) -> Option<Seq<char>>
    decreases more,
{
    match s.history_step(ask(n, cursor)) {
        StepModel::Respond(answer) => match page_in(answer) {
            Some(page) => match page.next_cursor {
                None => Some(page.content),
                Some(next) => if more == 0 {
                    None
                } else {
                    match walked(s, ask, next, n + 1, (more - 1) as nat) {
                        Some(older) => Some(older + page.content),
                        None => None,
                    }
                },
            },
            None => None,
        },
        _ => None,
    }
}

/// The capture's place at an offset.
pub open spec fn place_in(history: HistoryModel, stream_id: u32, offset: int) -> CursorModel {
    CursorModel {
        pane_id: history.pane_id,
        sequence: history.sequence,
        stream_id,
        offset: offset as u64,
    }
}

proof fn walked_prefix(
    s: ServedModel,
    ask: spec_fn(nat, Seq<char>) -> RequestModel,
    stream_id: u32,
    end: int,
    n: nat,
    more: nat,
)
    requires
        s.grants(CAPABILITY_PANE_STREAM@),
        s.streams.contains_key(stream_id),
        asks_for_pages(ask),
        asks_briefly(ask, s.streams[stream_id].history.pane_id),
        forall|k: nat, cursor: Seq<char>| s.serves(#[trigger] ask(k, cursor)),
        encode_utf8(s.streams[stream_id].history.content).len() <= u64::MAX,
        0 <= end <= encode_utf8(s.streams[stream_id].history.content).len(),
        is_char_boundary(encode_utf8(s.streams[stream_id].history.content), end),
        end <= more,
    ensures
        walked(s, ask, cursor_text(place_in(s.streams[stream_id].history, stream_id, end)), n, more)
            == Some(page_text(s.streams[stream_id].history.content, 0, end)),
    decreases end,
{
    let history = s.streams[stream_id].history;
    let content = history.content;
    let c = place_in(history, stream_id, end);
    let q = ask(n, cursor_text(c));
    assert(s.serves(q));
    cursors_are_found(c);
    let asked = q.agreed(history_params(q.params))->Ok_0.1;
    let budget = page_budget(asked);
    let start = page_start(encode_utf8(content), end, budget);
    assert(page_fits(q.id, c, content, budget));
    pages_are_read_as_served(q.id, c, content, budget);
    if end > 0 {
        pages_make_progress(content, end, budget);
        if start > 0 {
            walked_prefix(s, ask, stream_id, start, n + 1, (more - 1) as nat);
            page_joins_what_is_before(content, start, end);
        }
    }
}

/// A cursor's text is read back as the cursor.
proof fn cursors_are_found(c: CursorModel)
    ensures
        is_cursor(cursor_text(c)),
        cursor_of(cursor_text(c)) == c,
{
    cursors_read_back(cursor_of(cursor_text(c)), c);
}

/// A client that walks a stream's capture from its end, along the cursors it
/// is given, gets exactly the capture: nothing is lost and nothing comes
/// twice, whatever sizes it asks for, on a read stream as on a write stream.
/// That every page fits its frame is what `handle_stream_history` ensures.
pub proof fn walks_give_the_capture_back(
    s: ServedModel,
    ask: spec_fn(nat, Seq<char>) -> RequestModel,
    stream_id: u32,
    more: nat,
)
    requires
        s.grants(CAPABILITY_PANE_STREAM@),
        s.streams.contains_key(stream_id),
        asks_for_pages(ask),
        asks_briefly(ask, s.streams[stream_id].history.pane_id),
        forall|n: nat, cursor: Seq<char>| s.serves(#[trigger] ask(n, cursor)),
        encode_utf8(s.streams[stream_id].history.content).len() <= u64::MAX,
        encode_utf8(s.streams[stream_id].history.content).len() <= more,
    ensures
        ({
            let history = s.streams[stream_id].history;
            let end = encode_utf8(history.content).len() as int;
            walked(s, ask, cursor_text(place_in(history, stream_id, end)), 0, more) == Some(
                history.content,
            )
        }),
{
    let content = s.streams[stream_id].history.content;
    whole_page(content);
    walked_prefix(s, ask, stream_id, encode_utf8(content).len() as int, 0, more);
}

proof fn walked_to_the_top(
    s: ServedModel,
    ask: spec_fn(nat, Seq<char>) -> RequestModel,
    stream_id: u32,
    end: int,
    n: nat,
    more: nat,
)
    requires
        s.streams.contains_key(stream_id),
        asks_for_pages(ask),
        encode_utf8(s.streams[stream_id].history.content).len() <= u64::MAX,
        0 <= end <= encode_utf8(s.streams[stream_id].history.content).len(),
        is_char_boundary(encode_utf8(s.streams[stream_id].history.content), end),
    ensures
        walked(s, ask, cursor_text(place_in(s.streams[stream_id].history, stream_id, end)), n, more)
            matches Some(text) ==> text == page_text(
            s.streams[stream_id].history.content,
            0,
            end,
        ),
    decreases more,
{
    let history = s.streams[stream_id].history;
    let content = history.content;
    let c = place_in(history, stream_id, end);
    let q = ask(n, cursor_text(c));
    cursors_are_found(c);
    errors_hold_no_page(s, q);
    let budget = page_budget(q.agreed(history_params(q.params))->Ok_0.1);
    let start = page_start(encode_utf8(content), end, budget);
    pages_are_read_as_served(q.id, c, content, budget);
    if end > 0 {
        pages_make_progress(content, end, budget);
        if start > 0 && more > 0 {
            walked_to_the_top(s, ask, stream_id, start, n + 1, (more - 1) as nat);
            page_joins_what_is_before(content, start, end);
        }
    }
}

/// Whatever ids a client asks under: a walk that reaches the top has given it
/// exactly the capture.
pub proof fn walks_to_the_top_give_the_capture(
    s: ServedModel,
    ask: spec_fn(nat, Seq<char>) -> RequestModel,
    stream_id: u32,
    more: nat,
)
    requires
        s.streams.contains_key(stream_id),
        asks_for_pages(ask),
        encode_utf8(s.streams[stream_id].history.content).len() <= u64::MAX,
    ensures
        ({
            let history = s.streams[stream_id].history;
            let end = encode_utf8(history.content).len() as int;
            walked(s, ask, cursor_text(place_in(history, stream_id, end)), 0, more) matches Some(
                text,
            ) ==> text == history.content
        }),
{
    let content = s.streams[stream_id].history.content;
    whole_page(content);
    walked_to_the_top(s, ask, stream_id, encode_utf8(content).len() as int, 0, more);
}

/// A page is the session's own business: asking for one changes neither the
/// session nor the stream ids, and nothing is asked of the app. The page at
/// the top, and no other, hands out no cursor.
pub proof fn pages_are_served_locally(
    s: ServedModel,
    q: RequestModel,
    next: u64,
    sequence: u64,
    version: Seq<char>,
)
    requires
        q.method == STREAM_HISTORY_METHOD@,
    ensures
        s.control_step(q, next, sequence, version) == s.history_step(q),
        s.after_control(q) == s,
        s.next_after(q, next) == next,
        match s.history_step(q) {
            StepModel::Respond(answer) => page_in(answer) matches Some(page) ==> (page.at_top
                <==> page.next_cursor is None),
            _ => false,
        },
{
    history_is_another_method();
    if let Ok((text, asked)) = q.agreed(history_params(q.params)) {
        let cursor = cursor_of(text);
        let content = s.streams[cursor.stream_id].history.content;
        pages_are_read_as_served(q.id, cursor, content, page_budget(asked));
        if fits(cursor, s.streams[cursor.stream_id].history) && cursor.offset > 0 {
            pages_make_progress(content, cursor.offset as int, page_budget(asked));
        }
    }
    errors_hold_no_page(s, q);
}

/// An answer that is no page holds none.
proof fn errors_hold_no_page(s: ServedModel, q: RequestModel)
    ensures
        match s.history_step(q) {
            StepModel::Respond(answer) => page_in(answer) is None || (q.agreed(
                history_params(q.params),
            ) matches Ok((text, asked)) && answer == page_view(
                q.id,
                cursor_of(text),
                s.streams[cursor_of(text).stream_id].history.content,
                page_budget(asked),
            ) && fits(cursor_of(text), s.streams[cursor_of(text).stream_id].history)),
            _ => false,
        },
{
    reveal_with_fuel(first_index, 4);
    reveal_strlit("id");
    reveal_strlit("error");
    reveal_strlit("result");
    assert("id"@.len() == 2 && "error"@.len() == 5 && "result"@.len() == 6);
}

} // verus!
