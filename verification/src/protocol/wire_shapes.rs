//! The requests as they stand on the wire, member by member.
use crate::api::method::{MethodModel, PaneDirection};
use crate::api::schema::SplitDirection;
use crate::client_state::run::connect::hello_view;
use crate::json::{keyed, JsonView};
use crate::protocol::framed::{
    api_view, base64_text, close_view, history_view, open_view, paste_image_view, request_view,
    resize_view, scroll_view, send_bytes_view, StreamMode, StreamScrollDirection,
    StreamScrollParams, StreamScrollSource, PING_METHOD, SESSION_SNAPSHOT_METHOD,
};
use crate::seqs::first_index_is;
use vstd::prelude::*;

verus! {

/// The first member with a name, from the `i`th on.
pub open spec fn named_from(members: Seq<(Seq<char>, JsonView)>, i: nat, name: Seq<char>) -> Option<JsonView>
    decreases members.len() - i,
{
    if i >= members.len() {
        None
    } else if members[i as int].0 == name {
        Some(members[i as int].1)
    } else {
        named_from(members, i + 1, name)
    }
}

pub proof fn named_is_found(members: Seq<(Seq<char>, JsonView)>, i: nat, name: Seq<char>)
    requires
        i <= members.len(),
        forall|j: int| 0 <= j < i ==> (#[trigger] members[j]).0 != name,
    ensures
        JsonView::Object(members).field(name) == named_from(members, i, name),
    decreases members.len() - i,
{
    if i == members.len() {
        first_index_is(members, keyed(name), i as int);
    } else if members[i as int].0 == name {
        first_index_is(members, keyed(name), i as int);
    } else {
        named_is_found(members, i + 1, name);
    }
}

/// A request with that id, that method and those params.
pub open spec fn asks(v: JsonView, id: Seq<char>, method: Seq<char>, params: JsonView) -> bool {
    &&& v.field("id"@) == Some(JsonView::Text(id))
    &&& v.field("method"@) == Some(JsonView::Text(method))
    &&& v.field("params"@) == Some(params)
}

/// What stands under a name of the params of a request.
pub open spec fn param(v: JsonView, name: Seq<char>) -> Option<JsonView> {
    match v.field("params"@) {
        Some(params) => params.field(name),
        None => None,
    }
}

/// A request carries its id, its method and its params, under those names.
pub proof fn requests_carry_their_parts(
    id: Seq<char>,
    method: Seq<char>,
    params: Seq<(Seq<char>, JsonView)>,
)
    ensures
        asks(request_view(id, method, params), id, method, JsonView::Object(params)),
{
    let members = request_view(id, method, params)->Object_0;
    reveal_with_fuel(named_from, 4);
    reveal_strlit("id");
    reveal_strlit("method");
    reveal_strlit("params");
    assert("id"@.len() == 2);
    assert("method"@.len() == 6);
    assert("params"@.len() == 6);
    assert("method"@[0] != "params"@[0]);
    named_is_found(members, 0, "id"@);
    named_is_found(members, 0, "method"@);
    named_is_found(members, 0, "params"@);
}

/// A close names its stream.
pub proof fn closes_name_their_stream(id: Seq<char>, stream_id: u32)
    ensures
        ({
            let v = close_view(id, stream_id);
            &&& v.field("id"@) == Some(JsonView::Text(id))
            &&& v.field("method"@) == Some(JsonView::Text("stream.close"@))
            &&& param(v, "stream_id"@) == Some(JsonView::Unsigned(stream_id as u64))
        }),
{
    let v = close_view(id, stream_id);
    let params = v->Object_0[2].1->Object_0;
    requests_carry_their_parts(id, "stream.close"@, params);
    reveal_with_fuel(named_from, 3);
    reveal_strlit("stream_id");
    assert("stream_id"@.len() == 9);
    named_is_found(params, 0, "stream_id"@);
}

/// An open names its pane and how it is meant, and a size only where one is known.
pub proof fn opens_name_pane_and_mode(
    id: Seq<char>,
    pane_id: Seq<char>,
    mode: StreamMode,
    takeover: bool,
    cols: Option<u16>,
    rows: Option<u16>,
)
    ensures
        ({
            let v = open_view(id, pane_id, mode, takeover, cols, rows);
            &&& v.field("id"@) == Some(JsonView::Text(id))
            &&& v.field("method"@) == Some(JsonView::Text("stream.open"@))
            &&& param(v, "pane_id"@) == Some(JsonView::Text(pane_id))
            &&& param(v, "mode"@) == Some(JsonView::Text(if mode == StreamMode::Write {
                "write"@
            } else {
                "read"@
            }))
            &&& param(v, "takeover"@) == Some(JsonView::Bool(takeover))
            &&& param(v, "cols"@) == match cols {
                Some(x) => Some(JsonView::Unsigned(x as u64)),
                None => None,
            }
            &&& param(v, "rows"@) == match rows {
                Some(x) => Some(JsonView::Unsigned(x as u64)),
                None => None,
            }
        }),
{
    let v = open_view(id, pane_id, mode, takeover, cols, rows);
    let params = v->Object_0[2].1->Object_0;
    requests_carry_their_parts(id, "stream.open"@, params);
    reveal_with_fuel(named_from, 7);
    reveal_strlit("pane_id");
    reveal_strlit("mode");
    reveal_strlit("takeover");
    reveal_strlit("cols");
    reveal_strlit("rows");
    assert("pane_id"@.len() == 7);
    assert("mode"@.len() == 4);
    assert("takeover"@.len() == 8);
    assert("cols"@.len() == 4);
    assert("rows"@.len() == 4);
    assert("mode"@[0] != "cols"@[0]);
    assert("mode"@[0] != "rows"@[0]);
    assert("cols"@[0] != "rows"@[0]);
    named_is_found(params, 0, "pane_id"@);
    named_is_found(params, 0, "mode"@);
    named_is_found(params, 0, "takeover"@);
    named_is_found(params, 0, "cols"@);
    named_is_found(params, 0, "rows"@);
}

/// A resize names its stream, columns, rows and cell size.
pub proof fn resizes_name_stream_and_size(
    id: Seq<char>,
    stream_id: u32,
    cols: u16,
    rows: u16,
    width: u32,
    height: u32,
)
    ensures
        ({
            let v = resize_view(id, stream_id, cols, rows, width, height);
            &&& v.field("id"@) == Some(JsonView::Text(id))
            &&& v.field("method"@) == Some(JsonView::Text("stream.resize"@))
            &&& param(v, "stream_id"@) == Some(JsonView::Unsigned(stream_id as u64))
            &&& param(v, "cols"@) == Some(JsonView::Unsigned(cols as u64))
            &&& param(v, "rows"@) == Some(JsonView::Unsigned(rows as u64))
            &&& param(v, "cell_width_px"@) == Some(JsonView::Unsigned(width as u64))
            &&& param(v, "cell_height_px"@) == Some(JsonView::Unsigned(height as u64))
        }),
{
    let v = resize_view(id, stream_id, cols, rows, width, height);
    let params = v->Object_0[2].1->Object_0;
    requests_carry_their_parts(id, "stream.resize"@, params);
    reveal_with_fuel(named_from, 7);
    reveal_strlit("stream_id");
    reveal_strlit("cols");
    reveal_strlit("rows");
    reveal_strlit("cell_width_px");
    reveal_strlit("cell_height_px");
    assert("stream_id"@.len() == 9);
    assert("cols"@.len() == 4);
    assert("rows"@.len() == 4);
    assert("cell_width_px"@.len() == 13);
    assert("cell_height_px"@.len() == 14);
    assert("cols"@[0] != "rows"@[0]);
    named_is_found(params, 0, "stream_id"@);
    named_is_found(params, 0, "cols"@);
    named_is_found(params, 0, "rows"@);
    named_is_found(params, 0, "cell_width_px"@);
    named_is_found(params, 0, "cell_height_px"@);
}

/// A scroll says which way, how far, what caused it and where.
pub proof fn scrolls_name_all_of_the_scroll(id: Seq<char>, p: StreamScrollParams)
    ensures
        ({
            let v = scroll_view(id, p);
            &&& v.field("id"@) == Some(JsonView::Text(id))
            &&& v.field("method"@) == Some(JsonView::Text("stream.scroll"@))
            &&& param(v, "stream_id"@) == Some(JsonView::Unsigned(p.stream_id as u64))
            &&& param(v, "direction"@) == Some(JsonView::Text(if p.direction == StreamScrollDirection::Up {
                "up"@
            } else {
                "down"@
            }))
            &&& param(v, "lines"@) == Some(JsonView::Unsigned(p.lines as u64))
            &&& param(v, "source"@) == Some(JsonView::Text(if p.source == StreamScrollSource::Wheel {
                "wheel"@
            } else {
                "page_key"@
            }))
            &&& param(v, "modifiers"@) == Some(JsonView::Unsigned(p.modifiers as u64))
            &&& param(v, "column"@) == match p.column {
                Some(x) => Some(JsonView::Unsigned(x as u64)),
                None => None,
            }
            &&& param(v, "row"@) == match p.row {
                Some(x) => Some(JsonView::Unsigned(x as u64)),
                None => None,
            }
        }),
{
    let v = scroll_view(id, p);
    let params = v->Object_0[2].1->Object_0;
    requests_carry_their_parts(id, "stream.scroll"@, params);
    reveal_with_fuel(named_from, 9);
    reveal_strlit("stream_id");
    reveal_strlit("direction");
    reveal_strlit("lines");
    reveal_strlit("source");
    reveal_strlit("modifiers");
    reveal_strlit("column");
    reveal_strlit("row");
    assert("stream_id"@.len() == 9);
    assert("direction"@.len() == 9);
    assert("lines"@.len() == 5);
    assert("source"@.len() == 6);
    assert("modifiers"@.len() == 9);
    assert("column"@.len() == 6);
    assert("row"@.len() == 3);
    assert("stream_id"@[0] != "direction"@[0]);
    assert("stream_id"@[0] != "modifiers"@[0]);
    assert("direction"@[0] != "modifiers"@[0]);
    assert("source"@[0] != "column"@[0]);
    named_is_found(params, 0, "stream_id"@);
    named_is_found(params, 0, "direction"@);
    named_is_found(params, 0, "lines"@);
    named_is_found(params, 0, "source"@);
    named_is_found(params, 0, "modifiers"@);
    named_is_found(params, 0, "column"@);
    named_is_found(params, 0, "row"@);
}

/// Bytes for a pane name it and carry them in base64.
pub proof fn pane_bytes_name_their_pane(id: Seq<char>, pane_id: Seq<char>, bytes: Seq<u8>)
    ensures
        ({
            let v = send_bytes_view(id, pane_id, bytes);
            &&& v.field("id"@) == Some(JsonView::Text(id))
            &&& v.field("method"@) == Some(JsonView::Text("pane.send_bytes"@))
            &&& param(v, "pane_id"@) == Some(JsonView::Text(pane_id))
            &&& param(v, "data_base64"@) == Some(JsonView::Text(base64_text(bytes)))
        }),
{
    let v = send_bytes_view(id, pane_id, bytes);
    let params = v->Object_0[2].1->Object_0;
    requests_carry_their_parts(id, "pane.send_bytes"@, params);
    reveal_with_fuel(named_from, 4);
    reveal_strlit("pane_id");
    reveal_strlit("data_base64");
    assert("pane_id"@.len() == 7);
    assert("data_base64"@.len() == 11);
    named_is_found(params, 0, "pane_id"@);
    named_is_found(params, 0, "data_base64"@);
}

/// An image for a pane names the pane and the file's extension.
pub proof fn images_name_pane_and_kind(
    id: Seq<char>,
    pane_id: Seq<char>,
    extension: Seq<char>,
    bytes: Seq<u8>,
)
    ensures
        ({
            let v = paste_image_view(id, pane_id, extension, bytes);
            &&& v.field("id"@) == Some(JsonView::Text(id))
            &&& v.field("method"@) == Some(JsonView::Text("pane.paste_image"@))
            &&& param(v, "pane_id"@) == Some(JsonView::Text(pane_id))
            &&& param(v, "extension"@) == Some(JsonView::Text(extension))
            &&& param(v, "data_base64"@) == Some(JsonView::Text(base64_text(bytes)))
        }),
{
    let v = paste_image_view(id, pane_id, extension, bytes);
    let params = v->Object_0[2].1->Object_0;
    requests_carry_their_parts(id, "pane.paste_image"@, params);
    reveal_with_fuel(named_from, 5);
    reveal_strlit("pane_id");
    reveal_strlit("extension");
    reveal_strlit("data_base64");
    assert("pane_id"@.len() == 7);
    assert("extension"@.len() == 9);
    assert("data_base64"@.len() == 11);
    named_is_found(params, 0, "pane_id"@);
    named_is_found(params, 0, "extension"@);
    named_is_found(params, 0, "data_base64"@);
}

/// An API request is carried whole.
pub proof fn api_requests_carry_the_request(id: Seq<char>, request: JsonView)
    ensures
        ({
            let v = api_view(id, request);
            &&& v.field("id"@) == Some(JsonView::Text(id))
            &&& v.field("method"@) == Some(JsonView::Text("api.request"@))
            &&& param(v, "request"@) == Some(request)
        }),
{
    let v = api_view(id, request);
    let params = v->Object_0[2].1->Object_0;
    requests_carry_their_parts(id, "api.request"@, params);
    reveal_with_fuel(named_from, 3);
    reveal_strlit("request");
    assert("request"@.len() == 7);
    named_is_found(params, 0, "request"@);
}

/// A request for history names the cursor and how much may come.
pub proof fn history_requests_name_cursor_and_budget(
    id: Seq<char>,
    cursor: Seq<char>,
    max_bytes: u64,
)
    ensures
        ({
            let v = history_view(id, cursor, max_bytes);
            &&& v.field("id"@) == Some(JsonView::Text(id))
            &&& v.field("method"@) == Some(JsonView::Text("stream.history"@))
            &&& param(v, "cursor"@) == Some(JsonView::Text(cursor))
            &&& param(v, "max_bytes"@) == Some(JsonView::Unsigned(max_bytes as u64))
        }),
{
    let v = history_view(id, cursor, max_bytes);
    let params = v->Object_0[2].1->Object_0;
    requests_carry_their_parts(id, "stream.history"@, params);
    reveal_with_fuel(named_from, 4);
    reveal_strlit("cursor");
    reveal_strlit("max_bytes");
    assert("cursor"@.len() == 6);
    assert("max_bytes"@.len() == 9);
    named_is_found(params, 0, "cursor"@);
    named_is_found(params, 0, "max_bytes"@);
}

/// A hello names the newest and the oldest protocol spoken, and what is offered.
pub proof fn hellos_name_window_and_offers(
    id: Seq<char>,
    protocol: u32,
    oldest: u32,
    list: Seq<Seq<char>>,
)
    ensures
        ({
            let v = hello_view(id, protocol, oldest, list);
            &&& v.field("id"@) == Some(JsonView::Text(id))
            &&& v.field("method"@) == Some(JsonView::Text("session.hello"@))
            &&& param(v, "protocol"@) == Some(JsonView::Unsigned(protocol as u64))
            &&& param(v, "min_protocol"@) == Some(JsonView::Unsigned(oldest as u64))
        }),
{
    let v = hello_view(id, protocol, oldest, list);
    let params = v->Object_0[2].1->Object_0;
    requests_carry_their_parts(id, "session.hello"@, params);
    reveal_with_fuel(named_from, 4);
    reveal_strlit("protocol");
    reveal_strlit("min_protocol");
    assert("protocol"@.len() == 8);
    assert("min_protocol"@.len() == 12);
    named_is_found(params, 0, "protocol"@);
    named_is_found(params, 0, "min_protocol"@);
}

/// A heartbeat and a request for a snapshot are their method alone.
pub proof fn plain_requests_are_their_method(id: Seq<char>)
    ensures
        asks(
            request_view(id, PING_METHOD@, Seq::empty()),
            id,
            "ping"@,
            JsonView::Object(Seq::empty()),
        ),
        asks(
            request_view(id, SESSION_SNAPSHOT_METHOD@, Seq::empty()),
            id,
            "session.snapshot"@,
            JsonView::Object(Seq::empty()),
        ),
{
    requests_carry_their_parts(id, PING_METHOD@, Seq::empty());
    requests_carry_their_parts(id, SESSION_SNAPSHOT_METHOD@, Seq::empty());
}

/// Creating a workspace says whether it takes the focus.
pub proof fn workspace_creation_on_the_wire(id: Seq<char>, focus: bool)
    ensures
        ({
            let v = (MethodModel::WorkspaceCreate { focus }).request(id);
            &&& v.field("id"@) == Some(JsonView::Text(id))
            &&& v.field("method"@) == Some(JsonView::Text("workspace.create"@))
            &&& param(v, "focus"@) == Some(JsonView::Bool(focus))
        }),
{
    let v = (MethodModel::WorkspaceCreate { focus }).request(id);
    let params = v->Object_0[2].1->Object_0;
    requests_carry_their_parts(id, "workspace.create"@, params);
    reveal_with_fuel(named_from, 3);
    reveal_strlit("focus");
    assert("focus"@.len() == 5);
    named_is_found(params, 0, "focus"@);
}

/// Closing a workspace names it.
pub proof fn workspace_closing_on_the_wire(id: Seq<char>, workspace_id: Seq<char>)
    ensures
        ({
            let v = (MethodModel::WorkspaceClose { workspace_id }).request(id);
            &&& v.field("id"@) == Some(JsonView::Text(id))
            &&& v.field("method"@) == Some(JsonView::Text("workspace.close"@))
            &&& param(v, "workspace_id"@) == Some(JsonView::Text(workspace_id))
        }),
{
    let v = (MethodModel::WorkspaceClose { workspace_id }).request(id);
    let params = v->Object_0[2].1->Object_0;
    requests_carry_their_parts(id, "workspace.close"@, params);
    reveal_with_fuel(named_from, 3);
    reveal_strlit("workspace_id");
    assert("workspace_id"@.len() == 12);
    named_is_found(params, 0, "workspace_id"@);
}

/// Focusing a workspace names it.
pub proof fn workspace_focus_on_the_wire(id: Seq<char>, workspace_id: Seq<char>)
    ensures
        ({
            let v = (MethodModel::WorkspaceFocus { workspace_id }).request(id);
            &&& v.field("id"@) == Some(JsonView::Text(id))
            &&& v.field("method"@) == Some(JsonView::Text("workspace.focus"@))
            &&& param(v, "workspace_id"@) == Some(JsonView::Text(workspace_id))
        }),
{
    let v = (MethodModel::WorkspaceFocus { workspace_id }).request(id);
    let params = v->Object_0[2].1->Object_0;
    requests_carry_their_parts(id, "workspace.focus"@, params);
    reveal_with_fuel(named_from, 3);
    reveal_strlit("workspace_id");
    assert("workspace_id"@.len() == 12);
    named_is_found(params, 0, "workspace_id"@);
}

/// Renaming a workspace names it and gives the label.
pub proof fn workspace_renaming_on_the_wire(
    id: Seq<char>,
    workspace_id: Seq<char>,
    label: Seq<char>,
)
    ensures
        ({
            let v = (MethodModel::WorkspaceRename { workspace_id, label }).request(id);
            &&& v.field("id"@) == Some(JsonView::Text(id))
            &&& v.field("method"@) == Some(JsonView::Text("workspace.rename"@))
            &&& param(v, "workspace_id"@) == Some(JsonView::Text(workspace_id))
            &&& param(v, "label"@) == Some(JsonView::Text(label))
        }),
{
    let v = (MethodModel::WorkspaceRename { workspace_id, label }).request(id);
    let params = v->Object_0[2].1->Object_0;
    requests_carry_their_parts(id, "workspace.rename"@, params);
    reveal_with_fuel(named_from, 4);
    reveal_strlit("workspace_id");
    reveal_strlit("label");
    assert("workspace_id"@.len() == 12);
    assert("label"@.len() == 5);
    named_is_found(params, 0, "workspace_id"@);
    named_is_found(params, 0, "label"@);
}

/// Moving a workspace names it and its place.
pub proof fn workspace_moving_on_the_wire(
    id: Seq<char>,
    workspace_id: Seq<char>,
    insert_index: usize,
)
    ensures
        ({
            let v = (MethodModel::WorkspaceMove { workspace_id, insert_index }).request(id);
            &&& v.field("id"@) == Some(JsonView::Text(id))
            &&& v.field("method"@) == Some(JsonView::Text("workspace.move"@))
            &&& param(v, "workspace_id"@) == Some(JsonView::Text(workspace_id))
            &&& param(v, "insert_index"@) == Some(JsonView::Unsigned(insert_index as u64))
        }),
{
    let v = (MethodModel::WorkspaceMove { workspace_id, insert_index }).request(id);
    let params = v->Object_0[2].1->Object_0;
    requests_carry_their_parts(id, "workspace.move"@, params);
    reveal_with_fuel(named_from, 4);
    reveal_strlit("workspace_id");
    reveal_strlit("insert_index");
    assert("workspace_id"@.len() == 12);
    assert("insert_index"@.len() == 12);
    assert("workspace_id"@[0] != "insert_index"@[0]);
    named_is_found(params, 0, "workspace_id"@);
    named_is_found(params, 0, "insert_index"@);
}

/// Creating a tab names its workspace where one is known.
pub proof fn tab_creation_on_the_wire(id: Seq<char>, workspace_id: Option<Seq<char>>, focus: bool)
    ensures
        ({
            let v = (MethodModel::TabCreate { workspace_id, focus }).request(id);
            &&& v.field("id"@) == Some(JsonView::Text(id))
            &&& v.field("method"@) == Some(JsonView::Text("tab.create"@))
            &&& param(v, "focus"@) == Some(JsonView::Bool(focus))
            &&& param(v, "workspace_id"@) == match workspace_id {
                Some(x) => Some(JsonView::Text(x)),
                None => None,
            }
        }),
{
    let v = (MethodModel::TabCreate { workspace_id, focus }).request(id);
    let params = v->Object_0[2].1->Object_0;
    requests_carry_their_parts(id, "tab.create"@, params);
    reveal_with_fuel(named_from, 4);
    reveal_strlit("focus");
    reveal_strlit("workspace_id");
    assert("focus"@.len() == 5);
    assert("workspace_id"@.len() == 12);
    named_is_found(params, 0, "focus"@);
    named_is_found(params, 0, "workspace_id"@);
}

/// Focusing a tab names it.
pub proof fn tab_focus_on_the_wire(id: Seq<char>, tab_id: Seq<char>)
    ensures
        ({
            let v = (MethodModel::TabFocus { tab_id }).request(id);
            &&& v.field("id"@) == Some(JsonView::Text(id))
            &&& v.field("method"@) == Some(JsonView::Text("tab.focus"@))
            &&& param(v, "tab_id"@) == Some(JsonView::Text(tab_id))
        }),
{
    let v = (MethodModel::TabFocus { tab_id }).request(id);
    let params = v->Object_0[2].1->Object_0;
    requests_carry_their_parts(id, "tab.focus"@, params);
    reveal_with_fuel(named_from, 3);
    reveal_strlit("tab_id");
    assert("tab_id"@.len() == 6);
    named_is_found(params, 0, "tab_id"@);
}

/// Closing a tab names it.
pub proof fn tab_closing_on_the_wire(id: Seq<char>, tab_id: Seq<char>)
    ensures
        ({
            let v = (MethodModel::TabClose { tab_id }).request(id);
            &&& v.field("id"@) == Some(JsonView::Text(id))
            &&& v.field("method"@) == Some(JsonView::Text("tab.close"@))
            &&& param(v, "tab_id"@) == Some(JsonView::Text(tab_id))
        }),
{
    let v = (MethodModel::TabClose { tab_id }).request(id);
    let params = v->Object_0[2].1->Object_0;
    requests_carry_their_parts(id, "tab.close"@, params);
    reveal_with_fuel(named_from, 3);
    reveal_strlit("tab_id");
    assert("tab_id"@.len() == 6);
    named_is_found(params, 0, "tab_id"@);
}

/// Moving a tab names it and its place.
pub proof fn tab_moving_on_the_wire(id: Seq<char>, tab_id: Seq<char>, insert_index: usize)
    ensures
        ({
            let v = (MethodModel::TabMove { tab_id, insert_index }).request(id);
            &&& v.field("id"@) == Some(JsonView::Text(id))
            &&& v.field("method"@) == Some(JsonView::Text("tab.move"@))
            &&& param(v, "tab_id"@) == Some(JsonView::Text(tab_id))
            &&& param(v, "insert_index"@) == Some(JsonView::Unsigned(insert_index as u64))
        }),
{
    let v = (MethodModel::TabMove { tab_id, insert_index }).request(id);
    let params = v->Object_0[2].1->Object_0;
    requests_carry_their_parts(id, "tab.move"@, params);
    reveal_with_fuel(named_from, 4);
    reveal_strlit("tab_id");
    reveal_strlit("insert_index");
    assert("tab_id"@.len() == 6);
    assert("insert_index"@.len() == 12);
    named_is_found(params, 0, "tab_id"@);
    named_is_found(params, 0, "insert_index"@);
}

/// A split names the pane, where one is known, and the side of the new one.
pub proof fn splits_on_the_wire(
    id: Seq<char>,
    target_pane_id: Option<Seq<char>>,
    direction: SplitDirection,
    focus: bool,
)
    ensures
        ({
            let v = (MethodModel::PaneSplit { target_pane_id, direction, focus }).request(id);
            &&& v.field("id"@) == Some(JsonView::Text(id))
            &&& v.field("method"@) == Some(JsonView::Text("pane.split"@))
            &&& param(v, "direction"@) == Some(JsonView::Text(if direction == SplitDirection::Right {
                "right"@
            } else {
                "down"@
            }))
            &&& param(v, "focus"@) == Some(JsonView::Bool(focus))
            &&& param(v, "target_pane_id"@) == match target_pane_id {
                Some(x) => Some(JsonView::Text(x)),
                None => None,
            }
        }),
{
    let v = (MethodModel::PaneSplit { target_pane_id, direction, focus }).request(id);
    let params = v->Object_0[2].1->Object_0;
    requests_carry_their_parts(id, "pane.split"@, params);
    reveal_with_fuel(named_from, 5);
    reveal_strlit("direction");
    reveal_strlit("focus");
    reveal_strlit("target_pane_id");
    assert("direction"@.len() == 9);
    assert("focus"@.len() == 5);
    assert("target_pane_id"@.len() == 14);
    named_is_found(params, 0, "direction"@);
    named_is_found(params, 0, "focus"@);
    named_is_found(params, 0, "target_pane_id"@);
}

/// Closing a pane names it.
pub proof fn pane_closing_on_the_wire(id: Seq<char>, pane_id: Seq<char>)
    ensures
        ({
            let v = (MethodModel::PaneClose { pane_id }).request(id);
            &&& v.field("id"@) == Some(JsonView::Text(id))
            &&& v.field("method"@) == Some(JsonView::Text("pane.close"@))
            &&& param(v, "pane_id"@) == Some(JsonView::Text(pane_id))
        }),
{
    let v = (MethodModel::PaneClose { pane_id }).request(id);
    let params = v->Object_0[2].1->Object_0;
    requests_carry_their_parts(id, "pane.close"@, params);
    reveal_with_fuel(named_from, 3);
    reveal_strlit("pane_id");
    assert("pane_id"@.len() == 7);
    named_is_found(params, 0, "pane_id"@);
}

/// Focusing a pane names it.
pub proof fn pane_focus_on_the_wire(id: Seq<char>, pane_id: Seq<char>)
    ensures
        ({
            let v = (MethodModel::PaneFocus { pane_id }).request(id);
            &&& v.field("id"@) == Some(JsonView::Text(id))
            &&& v.field("method"@) == Some(JsonView::Text("pane.focus"@))
            &&& param(v, "pane_id"@) == Some(JsonView::Text(pane_id))
        }),
{
    let v = (MethodModel::PaneFocus { pane_id }).request(id);
    let params = v->Object_0[2].1->Object_0;
    requests_carry_their_parts(id, "pane.focus"@, params);
    reveal_with_fuel(named_from, 3);
    reveal_strlit("pane_id");
    assert("pane_id"@.len() == 7);
    named_is_found(params, 0, "pane_id"@);
}

/// Renaming a pane names it and gives the label, where there is one.
pub proof fn pane_renaming_on_the_wire(id: Seq<char>, pane_id: Seq<char>, label: Option<Seq<char>>)
    ensures
        ({
            let v = (MethodModel::PaneRename { pane_id, label }).request(id);
            &&& v.field("id"@) == Some(JsonView::Text(id))
            &&& v.field("method"@) == Some(JsonView::Text("pane.rename"@))
            &&& param(v, "pane_id"@) == Some(JsonView::Text(pane_id))
            &&& param(v, "label"@) == match label {
                Some(x) => Some(JsonView::Text(x)),
                None => None,
            }
        }),
{
    let v = (MethodModel::PaneRename { pane_id, label }).request(id);
    let params = v->Object_0[2].1->Object_0;
    requests_carry_their_parts(id, "pane.rename"@, params);
    reveal_with_fuel(named_from, 4);
    reveal_strlit("pane_id");
    reveal_strlit("label");
    assert("pane_id"@.len() == 7);
    assert("label"@.len() == 5);
    named_is_found(params, 0, "pane_id"@);
    named_is_found(params, 0, "label"@);
}

/// Zooming names the pane, where one is known.
pub proof fn zooming_on_the_wire(id: Seq<char>, pane_id: Option<Seq<char>>)
    ensures
        ({
            let v = (MethodModel::PaneZoom { pane_id }).request(id);
            &&& v.field("id"@) == Some(JsonView::Text(id))
            &&& v.field("method"@) == Some(JsonView::Text("pane.zoom"@))
            &&& param(v, "pane_id"@) == match pane_id {
                Some(x) => Some(JsonView::Text(x)),
                None => None,
            }
        }),
{
    let v = (MethodModel::PaneZoom { pane_id }).request(id);
    let params = v->Object_0[2].1->Object_0;
    requests_carry_their_parts(id, "pane.zoom"@, params);
    reveal_with_fuel(named_from, 3);
    reveal_strlit("pane_id");
    assert("pane_id"@.len() == 7);
    named_is_found(params, 0, "pane_id"@);
}

/// Moving the focus says which way, from which pane.
pub proof fn focus_directions_on_the_wire(
    id: Seq<char>,
    pane_id: Option<Seq<char>>,
    direction: PaneDirection,
)
    ensures
        ({
            let v = (MethodModel::PaneFocusDirection { pane_id, direction }).request(id);
            &&& v.field("id"@) == Some(JsonView::Text(id))
            &&& v.field("method"@) == Some(JsonView::Text("pane.focus_direction"@))
            &&& param(v, "direction"@) == Some(JsonView::Text(match direction {
                PaneDirection::Left => "left"@,
                PaneDirection::Right => "right"@,
                PaneDirection::Up => "up"@,
                PaneDirection::Down => "down"@,
            }))
            &&& param(v, "pane_id"@) == match pane_id {
                Some(x) => Some(JsonView::Text(x)),
                None => None,
            }
        }),
{
    let v = (MethodModel::PaneFocusDirection { pane_id, direction }).request(id);
    let params = v->Object_0[2].1->Object_0;
    requests_carry_their_parts(id, "pane.focus_direction"@, params);
    reveal_with_fuel(named_from, 4);
    reveal_strlit("direction");
    reveal_strlit("pane_id");
    assert("direction"@.len() == 9);
    assert("pane_id"@.len() == 7);
    named_is_found(params, 0, "direction"@);
    named_is_found(params, 0, "pane_id"@);
}

/// A split ratio names the path to the split, turn by turn.
pub proof fn split_ratios_on_the_wire(id: Seq<char>, path: Seq<bool>, ratio: Seq<char>)
    ensures
        ({
            let v = (MethodModel::LayoutSetSplitRatio { path, ratio }).request(id);
            &&& v.field("id"@) == Some(JsonView::Text(id))
            &&& v.field("method"@) == Some(JsonView::Text("layout.set_split_ratio"@))
            &&& param(v, "path"@) == Some(JsonView::Array(path.map_values(|b: bool| JsonView::Bool(b))))
            &&& param(v, "ratio"@) == Some(JsonView::Float(ratio))
        }),
{
    let v = (MethodModel::LayoutSetSplitRatio { path, ratio }).request(id);
    let params = v->Object_0[2].1->Object_0;
    requests_carry_their_parts(id, "layout.set_split_ratio"@, params);
    reveal_with_fuel(named_from, 4);
    reveal_strlit("path");
    reveal_strlit("ratio");
    assert("path"@.len() == 4);
    assert("ratio"@.len() == 5);
    named_is_found(params, 0, "path"@);
    named_is_found(params, 0, "ratio"@);
}

} // verus!
