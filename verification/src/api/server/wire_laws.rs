//! What is written in a frame is read on the other side.
use crate::api::server::framed_session::page_view;
use crate::api::server::handshake::{capability_list, welcome_view};
use crate::api::server::laws::pages_are_read_as_served;
use crate::api::server::requests::{
    hello_params, history_params, open_params, paste_image_params, request_in, resize_params,
    scroll_params, send_bytes_params, stream_param, OpenParamsModel, RequestModel,
    StreamResizeParams,
};
use crate::client_state::run::connect::hello_view;
use crate::json::{
    ascending, canonical, canonical_items, canonical_members, json_parsed, keyed, legible,
    not_before, placed, written, JsonView, LEGIBLE_DEPTH,
};
use crate::protocol::framed::{
    base64_text, close_view, history_view, maybe_number, mode_text, open_view, paste_image_view,
    request_view, resize_view, scroll_direction_text, scroll_source_text, scroll_view,
    send_bytes_view, text_items, welcome_of, StreamScrollParams, WelcomeModel,
    PANE_PASTE_IMAGE_METHOD, PANE_SEND_BYTES_METHOD, SESSION_HELLO_METHOD, STREAM_CLOSE_METHOD,
    STREAM_HISTORY_METHOD, STREAM_OPEN_METHOD, STREAM_RESIZE_METHOD, STREAM_SCROLL_METHOD,
};
use crate::protocol::hello::{HelloModel, FRAMED_PROTOCOL_MIN_SUPPORTED};
use crate::protocol::history::{page_in, CursorModel};
use crate::seqs::{first_index, first_index_is, first_index_props};
use crate::text::{text_before, text_before_asym, text_before_total, text_before_trans};
use vstd::prelude::*;

verus! {

/// The last of the first `n` members with a name.
pub open spec fn last_named(members: Seq<(Seq<char>, JsonView)>, n: nat, name: Seq<char>) -> Option<
    JsonView,
>
    decreases n,
{
    if n == 0 || n > members.len() {
        None
    } else if members[n - 1].0 == name {
        Some(members[n - 1].1)
    } else {
        last_named(members, (n - 1) as nat, name)
    }
}

/// A placed member keeps members ascending, is found under its name, and
/// leaves every other one to be found.
proof fn placed_is_found(
    s: Seq<(Seq<char>, JsonView)>,
    name: Seq<char>,
    value: JsonView,
    key: Seq<char>,
)
    requires
        ascending(s),
    ensures
        ascending(placed(s, name, value)),
        JsonView::Object(placed(s, name, value)).field(key) == if key == name {
            Some(value)
        } else {
            JsonView::Object(s).field(key)
        },
{
    let p = not_before::<JsonView>(name);
    first_index_props(s, p);
    let i = first_index(s, p);
    let r = placed(s, name, value);
    assert forall|j: int| 0 <= j < i implies text_before((#[trigger] s[j]).0, name) by {
        assert(!p(s[j]));
    }
    if i < s.len() {
        assert(p(s[i]));
        text_before_total(s[i].0, name);
    }
    crate::json::placed_at(s, name, value, i);
    let replaced = i < s.len() && s[i].0 == name;
    // Nothing but the placed member has the name.
    assert forall|j: int| 0 <= j < s.len() && j != i implies (#[trigger] s[j]).0 != name by {
        if j < i {
            text_before_asym(s[j].0, name);
        } else {
            assert(text_before(s[i].0, s[j].0));
            if !replaced {
                text_before_trans(name, s[i].0, s[j].0);
            }
            text_before_asym(name, s[j].0);
        }
    }
    first_index_props(s, keyed(key));
    let k = first_index(s, keyed(key));
    if key == name {
        assert forall|j: int| 0 <= j < i implies !keyed(key)(#[trigger] r[j]) by {
            assert(r[j] == s[j]);
            text_before_asym(s[j].0, name);
        }
        assert(r[i] == (name, value));
        first_index_is(r, keyed(key), i);
    } else if replaced {
        assert forall|j: int| 0 <= j < k implies !keyed(key)(#[trigger] r[j]) by {
            if j != i {
                assert(r[j] == s[j]);
            }
        }
        if k < s.len() {
            assert(k != i);
            assert(r[k] == s[k]);
        }
        first_index_is(r, keyed(key), k);
    } else {
        let at = if k < i {
            k
        } else {
            k + 1
        };
        assert forall|j: int| 0 <= j < at implies !keyed(key)(#[trigger] r[j]) by {
            if j < i {
                assert(r[j] == s[j]);
            } else if j > i {
                assert(r[j] == s[j - 1]);
            }
        }
        if k < s.len() {
            assert(r[at] == s[k]);
        }
        first_index_is(r, keyed(key), at);
    }
}

/// A member of an object is on the wire what it is there: the last of its
/// name.
proof fn canonical_member(members: Seq<(Seq<char>, JsonView)>, n: nat, key: Seq<char>)
    requires
        n <= members.len(),
    ensures
        ascending(canonical_members(members, n)),
        JsonView::Object(canonical_members(members, n)).field(key) == match last_named(
            members,
            n,
            key,
        ) {
            Some(v) => Some(canonical(v)),
            None => None,
        },
    decreases n,
{
    if n > 0 {
        canonical_member(members, (n - 1) as nat, key);
        placed_is_found(
            canonical_members(members, (n - 1) as nat),
            members[n - 1].0,
            canonical(members[n - 1].1),
            key,
        );
    }
}

/// Whether the first `n` members are legible on the wire.
pub open spec fn legible_members(
    members: Seq<(Seq<char>, JsonView)>,
    n: nat,
    depth: nat,
) -> bool
    decreases n,
{
    n == 0 || n > members.len() || (legible_members(members, (n - 1) as nat, depth) && legible(
        canonical(members[n - 1].1),
        depth,
    ))
}

proof fn canonical_is_legible(members: Seq<(Seq<char>, JsonView)>, n: nat, depth: nat)
    requires
        n <= members.len(),
        legible_members(members, n, depth),
    ensures
        forall|i: int|
            0 <= i < canonical_members(members, n).len() ==> legible(
                (#[trigger] canonical_members(members, n)[i]).1,
                depth,
            ),
    decreases n,
{
    if n > 0 {
        canonical_is_legible(members, (n - 1) as nat, depth);
        let s = canonical_members(members, (n - 1) as nat);
        let name = members[n - 1].0;
        let value = canonical(members[n - 1].1);
        let r = canonical_members(members, n);
        first_index_props(s, not_before::<JsonView>(name));
        let at = first_index(s, not_before::<JsonView>(name));
        assert forall|i: int| 0 <= i < r.len() implies legible((#[trigger] r[i]).1, depth) by {
            if at < s.len() && s[at].0 == name {
                if i != at {
                    assert(r[i] == s[i]);
                }
            } else if i < at {
                assert(r[i] == s[i]);
            } else if i > at {
                assert(r[i] == s[i - 1]);
            }
        }
    }
}

/// An object of legible members is legible, one level up.
proof fn canonical_object_is_legible(members: Seq<(Seq<char>, JsonView)>, depth: nat)
    requires
        legible_members(members, members.len(), depth),
    ensures
        legible(canonical(JsonView::Object(members)), depth + 1),
{
    canonical_is_legible(members, members.len(), depth);
    let s = canonical_members(members, members.len());
    assert(canonical(JsonView::Object(members)) == JsonView::Object(s));
    assert(((depth + 1) - 1) as nat == depth);
    assert forall|i: int| 0 <= i < s.len() implies legible(
        (#[trigger] s[i]).1,
        ((depth + 1) - 1) as nat,
    ) by {}
}

proof fn legible_deeper(v: JsonView, depth: nat, more: nat)
    requires
        legible(v, depth),
        depth <= more,
    ensures
        legible(v, more),
    decreases depth,
{
    match v {
        JsonView::Array(items) => {
            assert forall|i: int| 0 <= i < items.len() implies legible(
                #[trigger] items[i],
                (more - 1) as nat,
            ) by {
                legible_deeper(items[i], (depth - 1) as nat, (more - 1) as nat);
            }
        },
        JsonView::Object(members) => {
            assert forall|i: int| 0 <= i < members.len() implies legible(
                (#[trigger] members[i]).1,
                (more - 1) as nat,
            ) by {
                legible_deeper(members[i].1, (depth - 1) as nat, (more - 1) as nat);
            }
        },
        _ => {},
    }
}

/// An object of legible members is read back, each member under its name.
pub proof fn objects_survive_the_wire(
    bytes: Seq<u8>,
    members: Seq<(Seq<char>, JsonView)>,
    depth: nat,
)
    requires
        written(bytes, JsonView::Object(members)),
        legible_members(members, members.len(), depth),
        depth < LEGIBLE_DEPTH,
    ensures
        json_parsed(bytes) == Some(canonical(JsonView::Object(members))),
        forall|key: Seq<char>| #[trigger]
            canonical(JsonView::Object(members)).field(key) == match last_named(
                members,
                members.len(),
                key,
            ) {
                Some(v) => Some(canonical(v)),
                None => None,
            },
{
    let v = canonical(JsonView::Object(members));
    canonical_object_is_legible(members, depth);
    legible_deeper(v, depth + 1, LEGIBLE_DEPTH as nat);
    assert forall|key: Seq<char>| #[trigger] v.field(key) == match last_named(
        members,
        members.len(),
        key,
    ) {
        Some(v) => Some(canonical(v)),
        None => None,
    } by {
        canonical_member(members, members.len(), key);
    }
}

/// A request is read from the bytes it was written as. Its params are read as
/// an object with the same members.
pub proof fn requests_survive_the_wire(
    bytes: Seq<u8>,
    id: Seq<char>,
    method: Seq<char>,
    params: Seq<(Seq<char>, JsonView)>,
)
    requires
        written(bytes, request_view(id, method, params)),
        legible_members(params, params.len(), 1),
    ensures
        request_in(bytes) == Some(
            RequestModel {
                id,
                method,
                params: canonical(JsonView::Object(params)),
                objection: None,
            },
        ),
        forall|key: Seq<char>| #[trigger]
            canonical(JsonView::Object(params)).field(key) == match last_named(
                params,
                params.len(),
                key,
            ) {
                Some(v) => Some(canonical(v)),
                None => None,
            },
{
    let members = request_view(id, method, params)->Object_0;
    let inner = canonical(JsonView::Object(params));
    canonical_object_is_legible(params, 1);
    reveal_with_fuel(legible_members, 4);
    reveal_with_fuel(last_named, 4);
    reveal_strlit("id");
    reveal_strlit("method");
    reveal_strlit("params");
    assert("id"@.len() == 2);
    assert("method"@.len() == 6);
    assert("params"@.len() == 6);
    assert("method"@[0] != "params"@[0]);
    objects_survive_the_wire(bytes, members, 2);
    assert(last_named(members, 3, "id"@) == Some(JsonView::Text(id)));
    assert(last_named(members, 3, "method"@) == Some(JsonView::Text(method)));
    assert(last_named(members, 3, "params"@) == Some(JsonView::Object(params)));
    let v = canonical(request_view(id, method, params));
    assert(v.field("id"@) == Some(JsonView::Text(id)));
    assert(v.field("method"@) == Some(JsonView::Text(method)));
    assert(v.field("params"@) == Some(inner));
    assert forall|key: Seq<char>| #[trigger] inner.field(key) == match last_named(
        params,
        params.len(),
        key,
    ) {
        Some(v) => Some(canonical(v)),
        None => None,
    } by {
        canonical_member(params, params.len(), key);
    }
}

/// A `stream.close` is read from the bytes it was written as.
pub proof fn closes_survive_the_wire(bytes: Seq<u8>, id: Seq<char>, stream_id: u32)
    requires
        written(bytes, close_view(id, stream_id)),
    ensures
        request_in(bytes) matches Some(q) && q.id == id && q.method == STREAM_CLOSE_METHOD@
            && stream_param(q.params) == Ok::<u32, Seq<char>>(stream_id),
{
    let params = seq![("stream_id"@, JsonView::Unsigned(stream_id as u64))];
    reveal_with_fuel(legible_members, 2);
    reveal_with_fuel(last_named, 2);
    requests_survive_the_wire(bytes, id, STREAM_CLOSE_METHOD@, params);
}

/// A `stream.history` is read from the bytes it was written as.
pub proof fn history_requests_survive_the_wire(
    bytes: Seq<u8>,
    id: Seq<char>,
    cursor: Seq<char>,
    max_bytes: u64,
)
    requires
        written(bytes, history_view(id, cursor, max_bytes)),
    ensures
        request_in(bytes) matches Some(q) && q.id == id && q.method == STREAM_HISTORY_METHOD@
            && history_params(q.params) == Ok::<(Seq<char>, Option<u64>), Seq<char>>(
            (cursor, Some(max_bytes)),
        ),
{
    let params = seq![
        ("cursor"@, JsonView::Text(cursor)),
        ("max_bytes"@, JsonView::Unsigned(max_bytes)),
    ];
    reveal_with_fuel(legible_members, 3);
    reveal_with_fuel(last_named, 3);
    reveal_strlit("cursor");
    reveal_strlit("max_bytes");
    assert("cursor"@.len() == 6);
    assert("max_bytes"@.len() == 9);
    requests_survive_the_wire(bytes, id, STREAM_HISTORY_METHOD@, params);
}

/// A `pane.send_bytes` is read from the bytes it was written as.
pub proof fn pane_bytes_survive_the_wire(
    bytes: Seq<u8>,
    id: Seq<char>,
    pane_id: Seq<char>,
    input: Seq<u8>,
)
    requires
        written(bytes, send_bytes_view(id, pane_id, input)),
    ensures
        request_in(bytes) matches Some(q) && q.id == id && q.method == PANE_SEND_BYTES_METHOD@
            && send_bytes_params(q.params) == Ok::<(Seq<char>, Seq<char>), Seq<char>>(
            (pane_id, base64_text(input)),
        ),
{
    let params = seq![
        ("pane_id"@, JsonView::Text(pane_id)),
        ("data_base64"@, JsonView::Text(base64_text(input))),
    ];
    reveal_with_fuel(legible_members, 3);
    reveal_with_fuel(last_named, 3);
    reveal_strlit("pane_id");
    reveal_strlit("data_base64");
    assert("pane_id"@.len() == 7);
    assert("data_base64"@.len() == 11);
    requests_survive_the_wire(bytes, id, PANE_SEND_BYTES_METHOD@, params);
}

/// A `pane.paste_image` is read from the bytes it was written as.
pub proof fn images_survive_the_wire(
    bytes: Seq<u8>,
    id: Seq<char>,
    pane_id: Seq<char>,
    extension: Seq<char>,
    image: Seq<u8>,
)
    requires
        written(bytes, paste_image_view(id, pane_id, extension, image)),
    ensures
        request_in(bytes) matches Some(q) && q.id == id && q.method == PANE_PASTE_IMAGE_METHOD@
            && paste_image_params(q.params) == Ok::<
            (Seq<char>, Seq<char>, Seq<char>),
            Seq<char>,
        >((pane_id, extension, base64_text(image))),
{
    let params = seq![
        ("pane_id"@, JsonView::Text(pane_id)),
        ("extension"@, JsonView::Text(extension)),
        ("data_base64"@, JsonView::Text(base64_text(image))),
    ];
    reveal_with_fuel(legible_members, 4);
    reveal_with_fuel(last_named, 4);
    reveal_strlit("pane_id");
    reveal_strlit("extension");
    reveal_strlit("data_base64");
    assert("pane_id"@.len() == 7);
    assert("extension"@.len() == 9);
    assert("data_base64"@.len() == 11);
    requests_survive_the_wire(bytes, id, PANE_PASTE_IMAGE_METHOD@, params);
}

/// A `stream.resize` is read from the bytes it was written as.
pub proof fn resizes_survive_the_wire(bytes: Seq<u8>, id: Seq<char>, p: StreamResizeParams)
    requires
        written(
            bytes,
            resize_view(id, p.stream_id, p.cols, p.rows, p.cell_width_px, p.cell_height_px),
        ),
    ensures
        request_in(bytes) matches Some(q) && q.id == id && q.method == STREAM_RESIZE_METHOD@
            && resize_params(q.params) == Ok::<StreamResizeParams, Seq<char>>(p),
{
    let params = seq![
        ("stream_id"@, JsonView::Unsigned(p.stream_id as u64)),
        ("cols"@, JsonView::Unsigned(p.cols as u64)),
        ("rows"@, JsonView::Unsigned(p.rows as u64)),
        ("cell_width_px"@, JsonView::Unsigned(p.cell_width_px as u64)),
        ("cell_height_px"@, JsonView::Unsigned(p.cell_height_px as u64)),
    ];
    reveal_with_fuel(legible_members, 6);
    reveal_with_fuel(last_named, 6);
    reveal_strlit("stream_id");
    reveal_strlit("cols");
    reveal_strlit("rows");
    reveal_strlit("cell_width_px");
    reveal_strlit("cell_height_px");
    assert("stream_id"@.len() == 9);
    assert("cols"@.len() == 4);
    assert("rows"@.len() == 4);
    assert("cell_width_px"@.len() == 13);
    assert("cell_height_px"@.len() == 14);
    assert("cols"@[0] != "rows"@[0]);
    requests_survive_the_wire(bytes, id, STREAM_RESIZE_METHOD@, params);
}

/// A `stream.open` is read from the bytes it was written as.
pub proof fn opens_survive_the_wire(bytes: Seq<u8>, id: Seq<char>, p: OpenParamsModel)
    requires
        written(bytes, open_view(id, p.pane_id, p.mode, p.takeover, p.cols, p.rows)),
    ensures
        request_in(bytes) matches Some(q) && q.id == id && q.method == STREAM_OPEN_METHOD@
            && open_params(q.params) == Ok::<OpenParamsModel, Seq<char>>(p),
{
    let params = seq![
        ("pane_id"@, JsonView::Text(p.pane_id)),
        ("mode"@, JsonView::Text(mode_text(p.mode))),
        ("takeover"@, JsonView::Bool(p.takeover)),
    ] + maybe_number("cols"@, p.cols) + maybe_number("rows"@, p.rows);
    reveal_with_fuel(legible_members, 6);
    reveal_with_fuel(last_named, 6);
    reveal_strlit("pane_id");
    reveal_strlit("mode");
    reveal_strlit("takeover");
    reveal_strlit("cols");
    reveal_strlit("rows");
    reveal_strlit("read");
    reveal_strlit("write");
    assert("pane_id"@.len() == 7);
    assert("mode"@.len() == 4);
    assert("takeover"@.len() == 8);
    assert("cols"@.len() == 4);
    assert("rows"@.len() == 4);
    assert("read"@.len() == 4);
    assert("write"@.len() == 5);
    assert("cols"@[0] != "rows"@[0]);
    assert("mode"@[0] != "rows"@[0]);
    assert("mode"@[0] != "cols"@[0]);
    assert(legible_members(params, params.len(), 1));
    requests_survive_the_wire(bytes, id, STREAM_OPEN_METHOD@, params);
}

/// A `stream.scroll` is read from the bytes it was written as.
pub proof fn scrolls_survive_the_wire(bytes: Seq<u8>, id: Seq<char>, p: StreamScrollParams)
    requires
        written(bytes, scroll_view(id, p)),
    ensures
        request_in(bytes) matches Some(q) && q.id == id && q.method == STREAM_SCROLL_METHOD@
            && scroll_params(q.params) == Ok::<StreamScrollParams, Seq<char>>(p),
{
    let params = seq![
        ("stream_id"@, JsonView::Unsigned(p.stream_id as u64)),
        ("direction"@, JsonView::Text(scroll_direction_text(p.direction))),
        ("lines"@, JsonView::Unsigned(p.lines as u64)),
        ("source"@, JsonView::Text(scroll_source_text(p.source))),
        ("modifiers"@, JsonView::Unsigned(p.modifiers as u64)),
    ] + maybe_number("column"@, p.column) + maybe_number("row"@, p.row);
    reveal_with_fuel(legible_members, 8);
    reveal_with_fuel(last_named, 8);
    reveal_strlit("stream_id");
    reveal_strlit("direction");
    reveal_strlit("lines");
    reveal_strlit("source");
    reveal_strlit("modifiers");
    reveal_strlit("column");
    reveal_strlit("row");
    reveal_strlit("up");
    reveal_strlit("down");
    reveal_strlit("wheel");
    reveal_strlit("page_key");
    assert("stream_id"@.len() == 9);
    assert("direction"@.len() == 9);
    assert("lines"@.len() == 5);
    assert("source"@.len() == 6);
    assert("modifiers"@.len() == 9);
    assert("column"@.len() == 6);
    assert("row"@.len() == 3);
    assert("up"@.len() == 2);
    assert("down"@.len() == 4);
    assert("wheel"@.len() == 5);
    assert("page_key"@.len() == 8);
    assert("stream_id"@[0] != "direction"@[0]);
    assert("stream_id"@[0] != "modifiers"@[0]);
    assert("direction"@[0] != "modifiers"@[0]);
    assert("source"@[0] != "column"@[0]);
    assert(legible_members(params, params.len(), 1));
    requests_survive_the_wire(bytes, id, STREAM_SCROLL_METHOD@, params);
}

/// A list of texts is the same on the wire.
proof fn lists_are_canonical(list: Seq<Seq<char>>, n: nat)
    requires
        n <= list.len(),
    ensures
        canonical_items(capability_list(list)->Array_0, n) == capability_list(list)->Array_0.take(
            n as int,
        ),
    decreases n,
{
    let items = capability_list(list)->Array_0;
    if n > 0 {
        lists_are_canonical(list, (n - 1) as nat);
        assert(items[n - 1] == JsonView::Text(list[n - 1]));
        assert(canonical(items[n - 1]) == items[n - 1]);
        assert(items.take(n as int) =~= items.take(n - 1).push(items[n - 1]));
        assert(canonical_items(items, n) == canonical_items(items, (n - 1) as nat).push(
            canonical(items[n - 1]),
        ));
    } else {
        assert(items.take(0) =~= Seq::empty());
    }
}

/// A list of texts is legible and read as it was written.
proof fn lists_survive_the_wire(list: Seq<Seq<char>>)
    ensures
        canonical(capability_list(list)) == capability_list(list),
        legible(capability_list(list), 1),
        capability_list(list) matches JsonView::Array(items) && text_items(items) == Some(list),
{
    let items = capability_list(list)->Array_0;
    lists_are_canonical(list, list.len());
    assert forall|i: int| 0 <= i < items.len() implies legible(#[trigger] items[i], 0) by {
        assert(items[i] == JsonView::Text(list[i]));
    }
    assert(items.take(items.len() as int) =~= items);
    assert(items.map_values(
        |j: JsonView| crate::protocol::framed::text_or_empty(j.text()),
    ) =~= list);
}

/// A `session.hello` is read from the bytes it was written as.
pub proof fn hellos_survive_the_wire(
    bytes: Seq<u8>,
    id: Seq<char>,
    protocol: u32,
    oldest: u32,
    list: Seq<Seq<char>>,
)
    requires
        written(bytes, hello_view(id, protocol, oldest, list)),
    ensures
        request_in(bytes) matches Some(q) && q.id == id && q.method == SESSION_HELLO_METHOD@
            && hello_params(q.params) == Ok::<HelloModel, Seq<char>>(
            HelloModel { protocol, min_protocol: Some(oldest), capabilities: list },
        ),
{
    let params = seq![
        ("protocol"@, JsonView::Unsigned(protocol as u64)),
        ("min_protocol"@, JsonView::Unsigned(oldest as u64)),
        ("capabilities"@, JsonView::Array(list.map_values(|c: Seq<char>| JsonView::Text(c)))),
    ];
    reveal_with_fuel(legible_members, 4);
    reveal_with_fuel(last_named, 4);
    reveal_strlit("protocol");
    reveal_strlit("min_protocol");
    reveal_strlit("capabilities");
    assert("protocol"@.len() == 8);
    assert("min_protocol"@.len() == 12);
    assert("capabilities"@.len() == 12);
    assert("min_protocol"@[0] != "capabilities"@[0]);
    lists_survive_the_wire(list);
    assert(params[2].1 == capability_list(list));
    requests_survive_the_wire(bytes, id, SESSION_HELLO_METHOD@, params);
}

/// A welcome is read from the bytes it was written as.
pub proof fn welcomes_survive_the_wire(
    bytes: Seq<u8>,
    id: Seq<char>,
    protocol: u32,
    list: Seq<Seq<char>>,
    version: Seq<char>,
)
    requires
        written(bytes, welcome_view(id, protocol, list, version)),
    ensures
        json_parsed(bytes) matches Some(v) && welcome_of(v) == Some(
            WelcomeModel {
                protocol,
                min_protocol: FRAMED_PROTOCOL_MIN_SUPPORTED,
                capabilities: list,
                server_version: version,
            },
        ),
{
    let members = welcome_view(id, protocol, list, version)->Object_0;
    let result = members[1].1->Object_0;
    reveal_with_fuel(legible_members, 6);
    reveal_with_fuel(last_named, 6);
    reveal_strlit("id");
    reveal_strlit("result");
    reveal_strlit("type");
    reveal_strlit("protocol");
    reveal_strlit("min_protocol");
    reveal_strlit("capabilities");
    reveal_strlit("server_version");
    assert("id"@.len() == 2);
    assert("result"@.len() == 6);
    assert("type"@.len() == 4);
    assert("protocol"@.len() == 8);
    assert("min_protocol"@.len() == 12);
    assert("capabilities"@.len() == 12);
    assert("server_version"@.len() == 14);
    assert("min_protocol"@[0] != "capabilities"@[0]);
    lists_survive_the_wire(list);
    canonical_object_is_legible(result, 1);
    objects_survive_the_wire(bytes, members, 2);
    assert(last_named(members, 2, "result"@) == Some(JsonView::Object(result)));
    canonical_member(result, 5, "type"@);
    canonical_member(result, 5, "protocol"@);
    canonical_member(result, 5, "min_protocol"@);
    canonical_member(result, 5, "capabilities"@);
    canonical_member(result, 5, "server_version"@);
    let v = canonical(welcome_view(id, protocol, list, version));
    assert(v.field("result"@) == Some(canonical(JsonView::Object(result))));
}

/// The members of a page, as they are read.
proof fn page_members_are_read(result: Seq<(Seq<char>, JsonView)>)
    requires
        result.len() == 6,
        result[0].0 == "type"@,
        result[1].0 == "stream_id"@,
        result[2].0 == "content"@,
        result[3].0 == "next_cursor"@,
        result[4].0 == "at_top"@,
        result[5].0 == "end_cut_mid_line"@,
    ensures
        last_named(result, 6, "type"@) == Some(result[0].1),
        last_named(result, 6, "stream_id"@) == Some(result[1].1),
        last_named(result, 6, "content"@) == Some(result[2].1),
        last_named(result, 6, "next_cursor"@) == Some(result[3].1),
        last_named(result, 6, "at_top"@) == Some(result[4].1),
        last_named(result, 6, "end_cut_mid_line"@) == Some(result[5].1),
{
    reveal_with_fuel(last_named, 7);
    reveal_strlit("type");
    reveal_strlit("stream_id");
    reveal_strlit("content");
    reveal_strlit("next_cursor");
    reveal_strlit("at_top");
    reveal_strlit("end_cut_mid_line");
    assert("type"@.len() == 4);
    assert("stream_id"@.len() == 9);
    assert("content"@.len() == 7);
    assert("next_cursor"@.len() == 11);
    assert("at_top"@.len() == 6);
    assert("end_cut_mid_line"@.len() == 16);
}

proof fn pages_are_legible(result: Seq<(Seq<char>, JsonView)>)
    requires
        result.len() == 6,
        result[0].1 is Text,
        result[1].1 is Unsigned,
        result[2].1 is Text,
        result[3].1 is Text || result[3].1 is Null,
        result[4].1 is Bool,
        result[5].1 is Bool,
    ensures
        legible_members(result, 6, 1),
{
    reveal_with_fuel(legible_members, 7);
}

/// A page of history is read from the bytes it was written as.
pub proof fn pages_survive_the_wire(
    bytes: Seq<u8>,
    id: Seq<char>,
    cursor: CursorModel,
    content: Seq<char>,
    budget: int,
)
    requires
        written(bytes, page_view(id, cursor, content, budget)),
    ensures
        json_parsed(bytes) matches Some(v) && page_in(v) == page_in(
            page_view(id, cursor, content, budget),
        ),
{
    let members = page_view(id, cursor, content, budget)->Object_0;
    let result = members[1].1->Object_0;
    page_members_are_read(result);
    pages_are_legible(result);
    canonical_object_is_legible(result, 1);
    assert(legible_members(members, 2, 2)) by {
        reveal_with_fuel(legible_members, 3);
    }
    objects_survive_the_wire(bytes, members, 2);
    assert(last_named(members, 2, "result"@) == Some(JsonView::Object(result))) by {
        reveal_with_fuel(last_named, 3);
    }
    canonical_member(result, 6, "type"@);
    canonical_member(result, 6, "stream_id"@);
    canonical_member(result, 6, "content"@);
    canonical_member(result, 6, "next_cursor"@);
    canonical_member(result, 6, "at_top"@);
    canonical_member(result, 6, "end_cut_mid_line"@);
    let v = canonical(page_view(id, cursor, content, budget));
    assert(v.field("result"@) == Some(canonical(JsonView::Object(result))));
    pages_are_read_as_served(id, cursor, content, budget);
}

} // verus!
