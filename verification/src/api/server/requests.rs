//! What clients ask for in control frames, and how it is read.
use crate::json::{decode_json, json_parsed, Json, JsonView};
use crate::protocol::framed::{
    mode_text, scroll_direction_text, scroll_source_text, text_items, text_list, StreamMode,
    StreamScrollDirection, StreamScrollParams, StreamScrollSource,
};
use crate::protocol::hello::{HelloModel, SessionHelloParams};
use crate::text::{copy_opt, opt_view, same, texts};
use vstd::prelude::*;
use vstd::string::*;

verus! {

/// A control request. A missing id is empty, missing params are null.
#[derive(Debug)]
pub struct ControlRequest {
    pub id: String,
    pub method: String,
    pub params: Json,
    /// What the parser of the wire types says against the params, if anything.
    pub objection: Option<String>,
}

pub struct RequestModel {
    pub id: Seq<char>,
    pub method: Seq<char>,
    pub params: JsonView,
    pub objection: Option<Seq<char>>,
}

impl RequestModel {
    /// What was read of the params, unless the parser objects to them.
    pub open spec fn agreed<T>(self, read: Result<T, Seq<char>>) -> Result<T, Seq<char>> {
        match self.objection {
            Some(e) => Err(e),
            None => read,
        }
    }
}

/// What the parser of the wire types says against a payload, if anything: as
/// a request, and against the params that its method takes. It refuses a
/// member that comes twice, and its words go into the answer.
#[derive(Debug)]
pub struct Objections {
    pub request: Option<String>,
    pub params: Option<String>,
}

impl Objections {
    /// The parser takes the payload as it is.
    pub fn none() -> (r: Objections)
        ensures
            r.request is None,
            r.params is None,
    {
        Objections { request: None, params: None }
    }
}

impl ControlRequest {
    /// What was read of the params, unless the parser objects to them.
    pub fn agree<T>(&self, read: Result<T, String>) -> (r: Result<T, String>)
        ensures
            match self.objection {
                Some(e) => r matches Err(x) && x@ == e@,
                None => r == read,
            },
    {
        match &self.objection {
            Some(e) => Err(e.clone()),
            None => read,
        }
    }
}

impl View for ControlRequest {
    type V = RequestModel;

    open spec fn view(&self) -> RequestModel {
        RequestModel {
            id: self.id@,
            method: self.method@,
            params: self.params@,
            objection: opt_view(self.objection),
        }
    }
}

/// The request that a value is, if it is one.
pub open spec fn request_of(v: JsonView) -> Option<RequestModel> {
    let params = match v.field("params"@) {
        Some(p) => p,
        None => JsonView::Null,
    };
    match (v.field("id"@), v.text_field("method"@)) {
        (None, Some(method)) => Some(
            RequestModel { id: Seq::empty(), method, params, objection: None },
        ),
        (Some(JsonView::Text(id)), Some(method)) => Some(
            RequestModel { id, method, params, objection: None },
        ),
        _ => None,
    }
}

/// The request that a payload carries, if it carries one.
pub open spec fn request_in(payload: Seq<u8>) -> Option<RequestModel> {
    match json_parsed(payload) {
        Some(v) => request_of(v),
        None => None,
    }
}

/// Reads a request.
pub fn control_request_of(v: &Json) -> (r: Option<ControlRequest>)
    ensures
        match r {
            Some(q) => request_of(v@) == Some(q@),
            None => request_of(v@) is None,
        },
{
    let method = match v.text_of("method") {
        Some(m) => m.to_owned(),
        None => return None,
    };
    let id = match v.get("id") {
        None => String::new(),
        Some(i) => match i.as_str() {
            Some(t) => t.to_owned(),
            None => return None,
        },
    };
    let params = match v.get("params") {
        Some(p) => crate::json::copy_json(p),
        None => Json::Null,
    };
    assert(v@.field("id"@) is None ==> id@ =~= Seq::<char>::empty());
    Some(ControlRequest { id, method, params, objection: None })
}

/// Reads the request that a payload carries.
pub fn parse_control_request(payload: &[u8]) -> (r: Option<ControlRequest>)
    ensures
        match r {
            Some(q) => request_in(payload@) == Some(q@),
            None => request_in(payload@) is None,
        },
{
    match decode_json(payload) {
        Some(v) => control_request_of(&v),
        None => None,
    }
}

/// The request that a payload carries, or why it carries none.
pub open spec fn request_read(payload: Seq<u8>, objections: Objections) -> Result<
    RequestModel,
    Seq<char>,
> {
    match objections.request {
        Some(e) => Err(e@),
        None => match request_in(payload) {
            Some(q) => Ok(RequestModel { objection: opt_view(objections.params), ..q }),
            None => Err("not a control request"@),
        },
    }
}

/// Reads the request that a payload carries, where the parser has nothing
/// against it.
pub fn read_control_request(payload: &[u8], objections: &Objections) -> (r: Result<
    ControlRequest,
    String,
>)
    ensures
        match r {
            Ok(q) => request_read(payload@, *objections) == Ok::<RequestModel, Seq<char>>(q@),
            Err(e) => request_read(payload@, *objections) == Err::<RequestModel, Seq<char>>(e@),
        },
{
    if let Some(e) = &objections.request {
        return Err(e.clone());
    }
    match parse_control_request(payload) {
        Some(q) => {
            let mut q = q;
            q.objection = copy_opt(&objections.params);
            Ok(q)
        },
        None => Err("not a control request".to_owned()),
    }
}

/// Why a parameter that has to be there is refused.
pub open spec fn missing(key: Seq<char>) -> Seq<char> {
    "missing field `"@ + key + "`"@
}

/// Why a parameter that is there is refused.
pub open spec fn unfit(key: Seq<char>) -> Seq<char> {
    "invalid value for field `"@ + key + "`"@
}

pub(crate) fn missing_field(key: &str) -> (r: String)
    ensures
        r@ == missing(key@),
{
    "missing field `".to_owned().concat(key).concat("`")
}

pub(crate) fn unfit_field(key: &str) -> (r: String)
    ensures
        r@ == unfit(key@),
{
    "invalid value for field `".to_owned().concat(key).concat("`")
}

/// A result with its error as characters.
pub open spec fn outcome<T>(r: Result<T, String>) -> Result<T, Seq<char>> {
    match r {
        Ok(v) => Ok(v),
        Err(e) => Err(e@),
    }
}

/// A text that has to be there.
pub open spec fn text_param(v: JsonView, key: Seq<char>) -> Result<Seq<char>, Seq<char>> {
    match v.field(key) {
        None => Err(missing(key)),
        Some(JsonView::Text(t)) => Ok(t),
        Some(_) => Err(unfit(key)),
    }
}

pub(crate) fn read_text(v: &Json, key: &str) -> (r: Result<String, String>)
    ensures
        match r {
            Ok(t) => text_param(v@, key@) == Ok::<Seq<char>, Seq<char>>(t@),
            Err(e) => text_param(v@, key@) == Err::<Seq<char>, Seq<char>>(e@),
        },
{
    match v.get(key) {
        None => Err(missing_field(key)),
        Some(x) => match x.as_str() {
            Some(t) => Ok(t.to_owned()),
            None => Err(unfit_field(key)),
        },
    }
}

/// A number up to a limit that has to be there.
pub open spec fn number_param(v: JsonView, key: Seq<char>, limit: u64) -> Result<u64, Seq<char>> {
    match v.field(key) {
        None => Err(missing(key)),
        Some(JsonView::Unsigned(n)) => if n <= limit {
            Ok(n)
        } else {
            Err(unfit(key))
        },
        Some(_) => Err(unfit(key)),
    }
}

pub(crate) fn read_number(v: &Json, key: &str, limit: u64) -> (r: Result<u64, String>)
    ensures
        outcome(r) == number_param(v@, key@, limit),
{
    match v.get(key) {
        None => Err(missing_field(key)),
        Some(x) => match x.as_u64() {
            Some(n) => if n <= limit {
                Ok(n)
            } else {
                Err(unfit_field(key))
            },
            None => Err(unfit_field(key)),
        },
    }
}

/// A number up to a limit that may be absent or null.
pub open spec fn optional_param(v: JsonView, key: Seq<char>, limit: u64) -> Result<
    Option<u64>,
    Seq<char>,
> {
    match v.field(key) {
        None => Ok(None),
        Some(JsonView::Null) => Ok(None),
        Some(JsonView::Unsigned(n)) => if n <= limit {
            Ok(Some(n))
        } else {
            Err(unfit(key))
        },
        Some(_) => Err(unfit(key)),
    }
}

pub(crate) fn read_optional(v: &Json, key: &str, limit: u64) -> (r: Result<Option<u64>, String>)
    ensures
        outcome(r) == optional_param(v@, key@, limit),
{
    match v.get(key) {
        None => Ok(None),
        Some(Json::Null) => Ok(None),
        Some(x) => match x.as_u64() {
            Some(n) => if n <= limit {
                Ok(Some(n))
            } else {
                Err(unfit_field(key))
            },
            None => Err(unfit_field(key)),
        },
    }
}

/// A number up to a limit that is zero where absent.
pub open spec fn defaulted_param(v: JsonView, key: Seq<char>, limit: u64) -> Result<u64, Seq<char>> {
    match v.field(key) {
        None => Ok(0),
        Some(_) => number_param(v, key, limit),
    }
}

pub(crate) fn read_defaulted(v: &Json, key: &str, limit: u64) -> (r: Result<u64, String>)
    ensures
        outcome(r) == defaulted_param(v@, key@, limit),
{
    match v.get(key) {
        None => Ok(0),
        Some(_) => read_number(v, key, limit),
    }
}

/// A flag that is off where absent.
pub open spec fn flag_param(v: JsonView, key: Seq<char>) -> Result<bool, Seq<char>> {
    match v.field(key) {
        None => Ok(false),
        Some(JsonView::Bool(b)) => Ok(b),
        Some(_) => Err(unfit(key)),
    }
}

pub(crate) fn read_flag(v: &Json, key: &str) -> (r: Result<bool, String>)
    ensures
        outcome(r) == flag_param(v@, key@),
{
    match v.get(key) {
        None => Ok(false),
        Some(x) => match x.as_bool() {
            Some(b) => Ok(b),
            None => Err(unfit_field(key)),
        },
    }
}

/// A number that fits 16 bits, of one that is known to.
pub open spec fn narrowed(n: Option<u64>) -> Option<u16> {
    match n {
        Some(n) => Some(n as u16),
        None => None,
    }
}

pub(crate) fn narrow(n: Option<u64>) -> (r: Option<u16>)
    requires
        n matches Some(n) ==> n <= u16::MAX,
    ensures
        r == narrowed(n),
{
    match n {
        Some(n) => Some(n as u16),
        None => None,
    }
}

/// What a `session.hello` asks for.
pub open spec fn hello_params(v: JsonView) -> Result<HelloModel, Seq<char>> {
    match number_param(v, "protocol"@, u32::MAX as u64) {
        Err(e) => Err(e),
        Ok(protocol) => match optional_param(v, "min_protocol"@, u32::MAX as u64) {
            Err(e) => Err(e),
            Ok(oldest) => match capability_param(v) {
                Err(e) => Err(e),
                Ok(capabilities) => Ok(
                    HelloModel {
                        protocol: protocol as u32,
                        min_protocol: match oldest {
                            Some(n) => Some(n as u32),
                            None => None,
                        },
                        capabilities,
                    },
                ),
            },
        },
    }
}

/// Capabilities are a list of texts; none where absent.
pub open spec fn capability_param(v: JsonView) -> Result<Seq<Seq<char>>, Seq<char>> {
    match v.field("capabilities"@) {
        None => Ok(Seq::empty()),
        Some(JsonView::Array(items)) => match text_items(items) {
            Some(list) => Ok(list),
            None => Err(unfit("capabilities"@)),
        },
        Some(_) => Err(unfit("capabilities"@)),
    }
}

fn read_capabilities(v: &Json) -> (r: Result<Vec<String>, String>)
    ensures
        match r {
            Ok(list) => capability_param(v@) == Ok::<Seq<Seq<char>>, Seq<char>>(texts(list@)),
            Err(e) => capability_param(v@) == Err::<Seq<Seq<char>>, Seq<char>>(e@),
        },
{
    match v.get("capabilities") {
        None => {
            let none: Vec<String> = Vec::new();
            assert(texts(none@) =~= Seq::<Seq<char>>::empty());
            Ok(none)
        },
        Some(Json::Array(items)) => {
            proof {
                crate::json::array_view(*items);
            }
            match text_list(items) {
                Some(list) => Ok(list),
                None => Err(unfit_field("capabilities")),
            }
        },
        Some(_) => Err(unfit_field("capabilities")),
    }
}

/// Reads what a `session.hello` asks for.
pub fn parse_hello_params(v: &Json) -> (r: Result<SessionHelloParams, String>)
    ensures
        match r {
            Ok(p) => hello_params(v@) == Ok::<HelloModel, Seq<char>>(p@),
            Err(e) => hello_params(v@) == Err::<HelloModel, Seq<char>>(e@),
        },
{
    let protocol: u64 = match read_number(v, "protocol", u32::MAX as u64) {
        Ok(n) => n,
        Err(e) => return Err(e),
    };
    let oldest: Option<u64> = match read_optional(v, "min_protocol", u32::MAX as u64) {
        Ok(n) => n,
        Err(e) => return Err(e),
    };
    let capabilities = match read_capabilities(v) {
        Ok(list) => list,
        Err(e) => return Err(e),
    };
    let min_protocol: Option<u32> = match oldest {
        Some(n) => Some(n as u32),
        None => None,
    };
    Ok(SessionHelloParams { protocol: protocol as u32, min_protocol, capabilities })
}

/// What a `stream.open` asks for.
#[derive(Debug)]
pub struct StreamOpenParams {
    pub pane_id: String,
    pub mode: StreamMode,
    pub takeover: bool,
    pub cols: Option<u16>,
    pub rows: Option<u16>,
}

pub struct OpenParamsModel {
    pub pane_id: Seq<char>,
    pub mode: StreamMode,
    pub takeover: bool,
    pub cols: Option<u16>,
    pub rows: Option<u16>,
}

impl View for StreamOpenParams {
    type V = OpenParamsModel;

    open spec fn view(&self) -> OpenParamsModel {
        OpenParamsModel {
            pane_id: self.pane_id@,
            mode: self.mode,
            takeover: self.takeover,
            cols: self.cols,
            rows: self.rows,
        }
    }
}

/// A stream is read-only unless it says otherwise.
pub open spec fn mode_param(v: JsonView) -> Result<StreamMode, Seq<char>> {
    match v.field("mode"@) {
        None => Ok(StreamMode::Read),
        Some(m) => if m.text() == Some(mode_text(StreamMode::Read)) {
            Ok(StreamMode::Read)
        } else if m.text() == Some(mode_text(StreamMode::Write)) {
            Ok(StreamMode::Write)
        } else {
            Err(unfit("mode"@))
        },
    }
}

fn read_mode(v: &Json) -> (r: Result<StreamMode, String>)
    ensures
        outcome(r) == mode_param(v@),
{
    match v.get("mode") {
        None => Ok(StreamMode::Read),
        Some(m) => match m.as_str() {
            Some(t) => if same(t, "read") {
                Ok(StreamMode::Read)
            } else if same(t, "write") {
                Ok(StreamMode::Write)
            } else {
                Err(unfit_field("mode"))
            },
            None => Err(unfit_field("mode")),
        },
    }
}

pub open spec fn open_params(v: JsonView) -> Result<OpenParamsModel, Seq<char>> {
    match (
        text_param(v, "pane_id"@),
        mode_param(v),
        flag_param(v, "takeover"@),
        optional_param(v, "cols"@, u16::MAX as u64),
        optional_param(v, "rows"@, u16::MAX as u64),
    ) {
        (Err(e), _, _, _, _) => Err(e),
        (_, Err(e), _, _, _) => Err(e),
        (_, _, Err(e), _, _) => Err(e),
        (_, _, _, Err(e), _) => Err(e),
        (_, _, _, _, Err(e)) => Err(e),
        (Ok(pane_id), Ok(mode), Ok(takeover), Ok(cols), Ok(rows)) => Ok(
            OpenParamsModel {
                pane_id,
                mode,
                takeover,
                cols: narrowed(cols),
                rows: narrowed(rows),
            },
        ),
    }
}

/// Reads what a `stream.open` asks for.
pub fn parse_open_params(v: &Json) -> (r: Result<StreamOpenParams, String>)
    ensures
        match r {
            Ok(p) => open_params(v@) == Ok::<OpenParamsModel, Seq<char>>(p@),
            Err(e) => open_params(v@) == Err::<OpenParamsModel, Seq<char>>(e@),
        },
{
    let pane_id = match read_text(v, "pane_id") {
        Ok(t) => t,
        Err(e) => return Err(e),
    };
    let mode = match read_mode(v) {
        Ok(m) => m,
        Err(e) => return Err(e),
    };
    let takeover: bool = match read_flag(v, "takeover") {
        Ok(b) => b,
        Err(e) => return Err(e),
    };
    let cols: Option<u64> = match read_optional(v, "cols", u16::MAX as u64) {
        Ok(n) => n,
        Err(e) => return Err(e),
    };
    let rows: Option<u64> = match read_optional(v, "rows", u16::MAX as u64) {
        Ok(n) => n,
        Err(e) => return Err(e),
    };
    Ok(StreamOpenParams { pane_id, mode, takeover, cols: narrow(cols), rows: narrow(rows) })
}

/// The stream that a request names.
pub open spec fn stream_param(v: JsonView) -> Result<u32, Seq<char>> {
    match number_param(v, "stream_id"@, u32::MAX as u64) {
        Ok(n) => Ok(n as u32),
        Err(e) => Err(e),
    }
}

/// Reads the stream that a request names.
pub fn parse_stream_param(v: &Json) -> (r: Result<u32, String>)
    ensures
        outcome(r) == stream_param(v@),
{
    match read_number(v, "stream_id", u32::MAX as u64) {
        Ok(n) => Ok(n as u32),
        Err(e) => Err(e),
    }
}

/// What a `stream.resize` asks for.
#[derive(Clone, Copy, PartialEq, Eq, Structural, Debug)]
pub struct StreamResizeParams {
    pub stream_id: u32,
    pub cols: u16,
    pub rows: u16,
    pub cell_width_px: u32,
    pub cell_height_px: u32,
}

pub open spec fn resize_params(v: JsonView) -> Result<StreamResizeParams, Seq<char>> {
    match (
        stream_param(v),
        number_param(v, "cols"@, u16::MAX as u64),
        number_param(v, "rows"@, u16::MAX as u64),
        defaulted_param(v, "cell_width_px"@, u32::MAX as u64),
        defaulted_param(v, "cell_height_px"@, u32::MAX as u64),
    ) {
        (Err(e), _, _, _, _) => Err(e),
        (_, Err(e), _, _, _) => Err(e),
        (_, _, Err(e), _, _) => Err(e),
        (_, _, _, Err(e), _) => Err(e),
        (_, _, _, _, Err(e)) => Err(e),
        (Ok(stream_id), Ok(cols), Ok(rows), Ok(width), Ok(height)) => Ok(
            StreamResizeParams {
                stream_id,
                cols: cols as u16,
                rows: rows as u16,
                cell_width_px: width as u32,
                cell_height_px: height as u32,
            },
        ),
    }
}

/// Reads what a `stream.resize` asks for.
pub fn parse_resize_params(v: &Json) -> (r: Result<StreamResizeParams, String>)
    ensures
        outcome(r) == resize_params(v@),
{
    let stream_id: u32 = match parse_stream_param(v) {
        Ok(n) => n,
        Err(e) => return Err(e),
    };
    let cols: u64 = match read_number(v, "cols", u16::MAX as u64) {
        Ok(n) => n,
        Err(e) => return Err(e),
    };
    let rows: u64 = match read_number(v, "rows", u16::MAX as u64) {
        Ok(n) => n,
        Err(e) => return Err(e),
    };
    let width: u64 = match read_defaulted(v, "cell_width_px", u32::MAX as u64) {
        Ok(n) => n,
        Err(e) => return Err(e),
    };
    let height: u64 = match read_defaulted(v, "cell_height_px", u32::MAX as u64) {
        Ok(n) => n,
        Err(e) => return Err(e),
    };
    Ok(
        StreamResizeParams {
            stream_id,
            cols: cols as u16,
            rows: rows as u16,
            cell_width_px: width as u32,
            cell_height_px: height as u32,
        },
    )
}

pub open spec fn direction_param(v: JsonView) -> Result<StreamScrollDirection, Seq<char>> {
    match v.field("direction"@) {
        None => Err(missing("direction"@)),
        Some(d) => if d.text() == Some(scroll_direction_text(StreamScrollDirection::Up)) {
            Ok(StreamScrollDirection::Up)
        } else if d.text() == Some(scroll_direction_text(StreamScrollDirection::Down)) {
            Ok(StreamScrollDirection::Down)
        } else {
            Err(unfit("direction"@))
        },
    }
}

pub(crate) fn read_direction(v: &Json) -> (r: Result<StreamScrollDirection, String>)
    ensures
        outcome(r) == direction_param(v@),
{
    match v.get("direction") {
        None => Err(missing_field("direction")),
        Some(d) => match d.as_str() {
            Some(t) => if same(t, "up") {
                Ok(StreamScrollDirection::Up)
            } else if same(t, "down") {
                Ok(StreamScrollDirection::Down)
            } else {
                Err(unfit_field("direction"))
            },
            None => Err(unfit_field("direction")),
        },
    }
}

/// A scroll is a turn of the wheel unless it says otherwise.
pub open spec fn source_param(v: JsonView) -> Result<StreamScrollSource, Seq<char>> {
    match v.field("source"@) {
        None => Ok(StreamScrollSource::Wheel),
        Some(d) => if d.text() == Some(scroll_source_text(StreamScrollSource::Wheel)) {
            Ok(StreamScrollSource::Wheel)
        } else if d.text() == Some(scroll_source_text(StreamScrollSource::PageKey)) {
            Ok(StreamScrollSource::PageKey)
        } else {
            Err(unfit("source"@))
        },
    }
}

pub(crate) fn read_source(v: &Json) -> (r: Result<StreamScrollSource, String>)
    ensures
        outcome(r) == source_param(v@),
{
    match v.get("source") {
        None => Ok(StreamScrollSource::Wheel),
        Some(d) => match d.as_str() {
            Some(t) => if same(t, "wheel") {
                Ok(StreamScrollSource::Wheel)
            } else if same(t, "page_key") {
                Ok(StreamScrollSource::PageKey)
            } else {
                Err(unfit_field("source"))
            },
            None => Err(unfit_field("source")),
        },
    }
}

pub open spec fn scroll_params(v: JsonView) -> Result<StreamScrollParams, Seq<char>> {
    match (
        stream_param(v),
        direction_param(v),
        number_param(v, "lines"@, u16::MAX as u64),
        source_param(v),
        optional_param(v, "column"@, u16::MAX as u64),
        optional_param(v, "row"@, u16::MAX as u64),
        defaulted_param(v, "modifiers"@, u8::MAX as u64),
    ) {
        (Err(e), _, _, _, _, _, _) => Err(e),
        (_, Err(e), _, _, _, _, _) => Err(e),
        (_, _, Err(e), _, _, _, _) => Err(e),
        (_, _, _, Err(e), _, _, _) => Err(e),
        (_, _, _, _, Err(e), _, _) => Err(e),
        (_, _, _, _, _, Err(e), _) => Err(e),
        (_, _, _, _, _, _, Err(e)) => Err(e),
        (
            Ok(stream_id),
            Ok(direction),
            Ok(lines),
            Ok(source),
            Ok(column),
            Ok(row),
            Ok(modifiers),
        ) => Ok(
            StreamScrollParams {
                stream_id,
                direction,
                lines: lines as u16,
                source,
                column: narrowed(column),
                row: narrowed(row),
                modifiers: modifiers as u8,
            },
        ),
    }
}

/// Reads what a `stream.scroll` asks for.
pub fn parse_scroll_params(v: &Json) -> (r: Result<StreamScrollParams, String>)
    ensures
        outcome(r) == scroll_params(v@),
{
    let stream_id: u32 = match parse_stream_param(v) {
        Ok(n) => n,
        Err(e) => return Err(e),
    };
    let direction = match read_direction(v) {
        Ok(d) => d,
        Err(e) => return Err(e),
    };
    let lines: u64 = match read_number(v, "lines", u16::MAX as u64) {
        Ok(n) => n,
        Err(e) => return Err(e),
    };
    let source = match read_source(v) {
        Ok(s) => s,
        Err(e) => return Err(e),
    };
    let column: Option<u64> = match read_optional(v, "column", u16::MAX as u64) {
        Ok(n) => n,
        Err(e) => return Err(e),
    };
    let row: Option<u64> = match read_optional(v, "row", u16::MAX as u64) {
        Ok(n) => n,
        Err(e) => return Err(e),
    };
    let modifiers: u64 = match read_defaulted(v, "modifiers", u8::MAX as u64) {
        Ok(n) => n,
        Err(e) => return Err(e),
    };
    Ok(
        StreamScrollParams {
            stream_id,
            direction,
            lines: lines as u16,
            source,
            column: narrow(column),
            row: narrow(row),
            modifiers: modifiers as u8,
        },
    )
}

/// What a `stream.history` asks for: a cursor and a size.
pub open spec fn history_params(v: JsonView) -> Result<(Seq<char>, Option<u64>), Seq<char>> {
    match (text_param(v, "cursor"@), optional_param(v, "max_bytes"@, u64::MAX)) {
        (Err(e), _) => Err(e),
        (_, Err(e)) => Err(e),
        (Ok(cursor), Ok(max_bytes)) => Ok((cursor, max_bytes)),
    }
}

/// Reads what a `stream.history` asks for.
pub fn parse_history_params(v: &Json) -> (r: Result<(String, Option<u64>), String>)
    ensures
        match r {
            Ok(p) => history_params(v@) == Ok::<(Seq<char>, Option<u64>), Seq<char>>((p.0@, p.1)),
            Err(e) => history_params(v@) == Err::<(Seq<char>, Option<u64>), Seq<char>>(e@),
        },
{
    let cursor = match read_text(v, "cursor") {
        Ok(t) => t,
        Err(e) => return Err(e),
    };
    match read_optional(v, "max_bytes", u64::MAX) {
        Ok(n) => Ok((cursor, n)),
        Err(e) => Err(e),
    }
}

/// What a `pane.send_bytes` carries: a pane and the encoded bytes.
pub open spec fn send_bytes_params(v: JsonView) -> Result<(Seq<char>, Seq<char>), Seq<char>> {
    match (text_param(v, "pane_id"@), text_param(v, "data_base64"@)) {
        (Err(e), _) => Err(e),
        (_, Err(e)) => Err(e),
        (Ok(pane_id), Ok(data)) => Ok((pane_id, data)),
    }
}

/// Reads what a `pane.send_bytes` carries.
pub fn parse_send_bytes_params(v: &Json) -> (r: Result<(String, String), String>)
    ensures
        match r {
            Ok(p) => send_bytes_params(v@) == Ok::<(Seq<char>, Seq<char>), Seq<char>>((p.0@, p.1@)),
            Err(e) => send_bytes_params(v@) == Err::<(Seq<char>, Seq<char>), Seq<char>>(e@),
        },
{
    let pane_id = match read_text(v, "pane_id") {
        Ok(t) => t,
        Err(e) => return Err(e),
    };
    match read_text(v, "data_base64") {
        Ok(data) => Ok((pane_id, data)),
        Err(e) => Err(e),
    }
}

/// What a `pane.paste_image` carries: a pane, an extension and the encoded
/// bytes.
pub open spec fn paste_image_params(v: JsonView) -> Result<
    (Seq<char>, Seq<char>, Seq<char>),
    Seq<char>,
> {
    match (
        text_param(v, "pane_id"@),
        text_param(v, "extension"@),
        text_param(v, "data_base64"@),
    ) {
        (Err(e), _, _) => Err(e),
        (_, Err(e), _) => Err(e),
        (_, _, Err(e)) => Err(e),
        (Ok(pane_id), Ok(extension), Ok(data)) => Ok((pane_id, extension, data)),
    }
}

/// Reads what a `pane.paste_image` carries.
pub fn parse_paste_image_params(v: &Json) -> (r: Result<(String, String, String), String>)
    ensures
        match r {
            Ok(p) => paste_image_params(v@) == Ok::<
                (Seq<char>, Seq<char>, Seq<char>),
                Seq<char>,
            >((p.0@, p.1@, p.2@)),
            Err(e) => paste_image_params(v@) == Err::<
                (Seq<char>, Seq<char>, Seq<char>),
                Seq<char>,
            >(e@),
        },
{
    let pane_id = match read_text(v, "pane_id") {
        Ok(t) => t,
        Err(e) => return Err(e),
    };
    let extension = match read_text(v, "extension") {
        Ok(t) => t,
        Err(e) => return Err(e),
    };
    match read_text(v, "data_base64") {
        Ok(data) => Ok((pane_id, extension, data)),
        Err(e) => Err(e),
    }
}

} // verus!
