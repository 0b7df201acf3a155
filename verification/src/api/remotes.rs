//! Fleet remotes as the API reports them, and the `remote.*` requests.
use crate::client_state::mirror::LOCAL_REMOTE_NAME;
use crate::fleet::config::{RemoteEntry};
use crate::json::{members_view, no_members, object2, with_member, Json, JsonView};
use crate::text::{copy_opt, same};
use vstd::prelude::*;
use vstd::string::*;

verus! {

/// Connection state of one fleet remote.
#[derive(Clone, Copy, PartialEq, Eq, Structural, Debug)]
pub enum RemoteConnectionStateInfo {
    /// A local runtime: there is no bridge to connect.
    Local,
    /// An attempt is in flight.
    Connecting,
    /// A live session.
    Connected,
    /// Not connected; reconnects continue.
    Offline,
    /// Disabled in the config.
    Disabled,
    /// Reachable, but no server runs there.
    Stopped,
    /// The version windows do not overlap.
    Incompatible,
    /// Nothing live is known of it.
    Unknown,
}

impl RemoteConnectionStateInfo {
    /// The state's name on the wire.
    pub open spec fn wire(self) -> Seq<char> {
        match self {
            RemoteConnectionStateInfo::Local => "local"@,
            RemoteConnectionStateInfo::Connecting => "connecting"@,
            RemoteConnectionStateInfo::Connected => "connected"@,
            RemoteConnectionStateInfo::Offline => "offline"@,
            RemoteConnectionStateInfo::Disabled => "disabled"@,
            RemoteConnectionStateInfo::Stopped => "stopped"@,
            RemoteConnectionStateInfo::Incompatible => "incompatible"@,
            RemoteConnectionStateInfo::Unknown => "unknown"@,
        }
    }

    /// The state's name on the wire.
    pub fn as_str(self) -> (r: &'static str)
        ensures
            r@ == self.wire(),
    {
        match self {
            RemoteConnectionStateInfo::Local => "local",
            RemoteConnectionStateInfo::Connecting => "connecting",
            RemoteConnectionStateInfo::Connected => "connected",
            RemoteConnectionStateInfo::Offline => "offline",
            RemoteConnectionStateInfo::Disabled => "disabled",
            RemoteConnectionStateInfo::Stopped => "stopped",
            RemoteConnectionStateInfo::Incompatible => "incompatible",
            RemoteConnectionStateInfo::Unknown => "unknown",
        }
    }
}

/// One fleet remote with its connection state, in fleet order.
#[derive(Clone, PartialEq, Eq, Debug)]
pub struct RemoteInfo {
    pub index: usize,
    pub name: String,
    pub target: Option<String>,
    pub session: Option<String>,
    pub enabled: bool,
    pub state: RemoteConnectionStateInfo,
    /// Attempts made while offline or connecting.
    pub attempt: Option<u32>,
    /// Milliseconds until the next reconnect while offline.
    pub retry_in_ms: Option<u64>,
    pub last_error: Option<String>,
}

/// Names one fleet remote.
#[derive(Clone, PartialEq, Eq, Debug)]
pub struct RemoteTargetParams {
    pub name: String,
}

/// The state of an entry when no fleet runs.
pub open spec fn resting_state(e: RemoteEntry) -> RemoteConnectionStateInfo {
    if !e.enabled {
        RemoteConnectionStateInfo::Disabled
    } else if e.target is None {
        RemoteConnectionStateInfo::Local
    } else {
        RemoteConnectionStateInfo::Unknown
    }
}

/// The info of a configured entry when no fleet runs.
pub open spec fn resting_info(e: RemoteEntry, index: usize) -> RemoteInfo {
    RemoteInfo {
        index,
        name: e.name,
        target: e.target,
        session: Some(e.session),
        enabled: e.enabled,
        state: resting_state(e),
        attempt: None,
        retry_in_ms: None,
        last_error: None,
    }
}

/// Lists the configured remotes when no fleet runs, in config order.
pub fn remote_infos_from_entries(entries: &[RemoteEntry]) -> (r: Vec<RemoteInfo>)
    ensures
        r@.len() == entries@.len(),
        forall|i: int|
            0 <= i < r@.len() ==> #[trigger] r@[i] == resting_info(entries@[i], i as usize),
{
    let mut out: Vec<RemoteInfo> = Vec::new();
    let mut i: usize = 0;
    while i < entries.len()
        invariant
            i <= entries@.len(),
            out@.len() == i,
            forall|j: int|
                0 <= j < i ==> #[trigger] out@[j] == resting_info(entries@[j], j as usize),
        decreases entries@.len() - i,
    {
        let e = &entries[i];
        let state = if !e.enabled {
            RemoteConnectionStateInfo::Disabled
        } else if e.target.is_none() {
            RemoteConnectionStateInfo::Local
        } else {
            RemoteConnectionStateInfo::Unknown
        };
        out.push(
            RemoteInfo {
                index: i,
                name: e.name.clone(),
                target: copy_opt(&e.target),
                session: Some(e.session.clone()),
                enabled: e.enabled,
                state,
                attempt: None,
                retry_in_ms: None,
                last_error: None,
            },
        );
        i = i + 1;
    }
    out
}

/// A text member that is there only with a value.
pub open spec fn text_member(key: Seq<char>, value: Option<String>) -> Seq<(Seq<char>, JsonView)> {
    match value {
        Some(v) => seq![(key, JsonView::Text(v@))],
        None => Seq::empty(),
    }
}

/// A number member that is there only with a value.
pub open spec fn number_member(key: Seq<char>, value: Option<u64>) -> Seq<(Seq<char>, JsonView)> {
    match value {
        Some(n) => seq![(key, JsonView::Unsigned(n))],
        None => Seq::empty(),
    }
}

/// A remote on the wire: unknown members are left out.
pub open spec fn info_view(i: RemoteInfo) -> JsonView {
    JsonView::Object(
        seq![
            ("index"@, JsonView::Unsigned(i.index as u64)),
            ("name"@, JsonView::Text(i.name@)),
        ] + text_member("target"@, i.target) + text_member("session"@, i.session) + seq![
            ("enabled"@, JsonView::Bool(i.enabled)),
            ("state"@, JsonView::Text(i.state.wire())),
        ] + number_member(
            "attempt"@,
            match i.attempt {
                Some(n) => Some(n as u64),
                None => None,
            },
        ) + number_member("retry_in_ms"@, i.retry_in_ms) + text_member("last_error"@, i.last_error),
    )
}

fn with_text_member(members: Vec<(String, Json)>, key: &str, value: &Option<String>) -> (r: Vec<
    (String, Json),
>)
    ensures
        members_view(r@) == members_view(members@) + text_member(key@, *value),
{
    match value {
        Some(v) => {
            let r = with_member(members, key, Json::from_text(v.as_str()));
            assert(members_view(r@) =~= members_view(members@) + text_member(key@, *value));
            r
        },
        None => {
            assert(members_view(members@) =~= members_view(members@) + text_member(key@, *value));
            members
        },
    }
}

fn with_number_member(members: Vec<(String, Json)>, key: &str, value: Option<u64>) -> (r: Vec<
    (String, Json),
>)
    ensures
        members_view(r@) == members_view(members@) + number_member(key@, value),
{
    match value {
        Some(n) => {
            let r = with_member(members, key, Json::Unsigned(n));
            assert(members_view(r@) =~= members_view(members@) + number_member(key@, value));
            r
        },
        None => {
            assert(members_view(members@) =~= members_view(members@) + number_member(key@, value));
            members
        },
    }
}

/// A remote on the wire.
pub fn remote_info_json(i: &RemoteInfo) -> (r: Json)
    ensures
        r@ == info_view(*i),
{
    let m = with_member(no_members(), "index", Json::Unsigned(i.index as u64));
    let m = with_member(m, "name", Json::from_text(i.name.as_str()));
    assert(members_view(m@) =~= seq![
        ("index"@, JsonView::Unsigned(i.index as u64)),
        ("name"@, JsonView::Text(i.name@)),
    ]);
    let m = with_text_member(with_text_member(m, "target", &i.target), "session", &i.session);
    let ghost head = members_view(m@);
    let m = with_member(m, "enabled", Json::Bool(i.enabled));
    let m = with_member(m, "state", Json::from_text(i.state.as_str()));
    assert(members_view(m@) =~= head + seq![
        ("enabled"@, JsonView::Bool(i.enabled)),
        ("state"@, JsonView::Text(i.state.wire())),
    ]);
    let attempt: Option<u64> = match i.attempt {
        Some(n) => Some(n as u64),
        None => None,
    };
    let m = with_number_member(m, "attempt", attempt);
    let m = with_number_member(m, "retry_in_ms", i.retry_in_ms);
    let m = with_text_member(m, "last_error", &i.last_error);
    Json::object(m)
}

/// A successful answer.
pub open spec fn success_view(id: Seq<char>, result: JsonView) -> JsonView {
    JsonView::Object(seq![("id"@, JsonView::Text(id)), ("result"@, result)])
}

/// An error answer.
pub open spec fn failure_view(id: Seq<char>, code: Seq<char>, message: Seq<char>) -> JsonView {
    JsonView::Object(
        seq![
            ("id"@, JsonView::Text(id)),
            (
                "error"@,
                JsonView::Object(
                    seq![
                        ("code"@, JsonView::Text(code)),
                        ("message"@, JsonView::Text(message)),
                    ],
                ),
            ),
        ],
    )
}

fn failure(id: &str, code: &str, message: &str) -> (r: Json)
    ensures
        r@ == failure_view(id@, code@, message@),
{
    object2(
        "id",
        Json::from_text(id),
        "error",
        object2("code", Json::from_text(code), "message", Json::from_text(message)),
    )
}

/// The result that lists remotes.
pub open spec fn list_view(infos: Seq<RemoteInfo>) -> JsonView {
    JsonView::Object(
        seq![
            ("type"@, JsonView::Text("remote_list"@)),
            ("remotes"@, JsonView::Array(infos.map_values(|i: RemoteInfo| info_view(i)))),
        ],
    )
}

/// Answers `remote.list`.
pub fn handle_remote_list(id: &str, infos: &Vec<RemoteInfo>) -> (r: Json)
    ensures
        r@ == success_view(id@, list_view(infos@)),
{
    let mut items: Vec<Json> = Vec::new();
    let mut i: usize = 0;
    while i < infos.len()
        invariant
            i <= infos@.len(),
            items@.len() == i,
            forall|j: int| 0 <= j < i ==> (#[trigger] items@[j])@ == info_view(infos@[j]),
        decreases infos@.len() - i,
    {
        items.push(remote_info_json(&infos[i]));
        i = i + 1;
    }
    assert(crate::json::items_view(items@) =~= infos@.map_values(|i: RemoteInfo| info_view(i)));
    let result = object2("type", Json::from_text("remote_list"), "remotes", Json::array(items));
    object2("id", Json::from_text(id), "result", result)
}

/// Why a reset is refused before it is tried: a local runtime has nothing to
/// reset, and without a fleet there is nothing to reset it in.
pub open spec fn reset_refusal(name: Seq<char>, fleet_running: bool) -> Option<
    (Seq<char>, Seq<char>),
> {
    if name == LOCAL_REMOTE_NAME@ {
        Some(("invalid_remote"@, "the local runtime has no connection to reset"@))
    } else if !fleet_running {
        Some(("fleet_not_running"@, "no fleet connection manager is running in this process"@))
    } else {
        None
    }
}

/// Refuses a `remote.reset` that cannot be tried.
pub fn refuse_remote_reset(id: &str, params: &RemoteTargetParams, fleet_running: bool) -> (r: Option<
    Json,
>)
    ensures
        match (r, reset_refusal(params.name@, fleet_running)) {
            (Some(j), Some((code, message))) => j@ == failure_view(id@, code, message),
            (None, None) => true,
            _ => false,
        },
{
    if same(params.name.as_str(), LOCAL_REMOTE_NAME) {
        return Some(
            failure(id, "invalid_remote", "the local runtime has no connection to reset"),
        );
    }
    if !fleet_running {
        return Some(
            failure(
                id,
                "fleet_not_running",
                "no fleet connection manager is running in this process",
            ),
        );
    }
    None
}

/// The answer to a `remote.reset` that was tried.
pub open spec fn reset_reply(id: Seq<char>, name: Seq<char>, found: bool) -> JsonView {
    if found {
        success_view(id, JsonView::Object(seq![("type"@, JsonView::Text("ok"@))]))
    } else {
        failure_view(id, "remote_not_found"@, "no enabled remote named '"@ + name + "'"@)
    }
}

/// Answers a `remote.reset`. `reset` tells whether the running fleet, if one
/// runs, found the remote to reset; a refused reset never gets that far.
pub fn handle_remote_reset(id: &str, params: &RemoteTargetParams, reset: Option<bool>) -> (r: Json)
    ensures
        r@ == match reset_refusal(params.name@, reset is Some) {
            Some((code, message)) => failure_view(id@, code, message),
            None => reset_reply(id@, params.name@, reset == Some(true)),
        },
{
    if let Some(refusal) = refuse_remote_reset(id, params, reset.is_some()) {
        return refusal;
    }
    let found: bool = match reset {
        Some(found) => found,
        None => false,
    };
    if found {
        object2(
            "id",
            Json::from_text(id),
            "result",
            crate::json::object1("type", Json::from_text("ok")),
        )
    } else {
        let message = "no enabled remote named '".to_owned().concat(params.name.as_str()).concat(
            "'",
        );
        failure(id, "remote_not_found", message.as_str())
    }
}

/// What a reload comes to: a config that does not load or validate is an
/// error and the running fleet stays as it is.
pub enum ReloadModel {
    Refuse(JsonView),
    Apply,
}

/// What a reload comes to.
#[derive(Debug)]
pub enum Reload {
    Refuse(Json),
    Apply,
}

impl View for Reload {
    type V = ReloadModel;

    open spec fn view(&self) -> ReloadModel {
        match *self {
            Reload::Refuse(j) => ReloadModel::Refuse(j@),
            Reload::Apply => ReloadModel::Apply,
        }
    }
}

/// What a `remote.reload` comes to, by what loading gave.
pub open spec fn reload_of(id: Seq<char>, loaded: Result<Vec<RemoteEntry>, String>) -> ReloadModel {
    match loaded {
        Err(e) => ReloadModel::Refuse(
            failure_view(
                id,
                "remote_config_invalid"@,
                "failed to load remotes.toml: "@ + e@,
            ),
        ),
        Ok(entries) => match crate::fleet::config::list_refusal(entries@) {
            Some(e) => ReloadModel::Refuse(
                failure_view(id, "remote_config_invalid"@, "invalid remotes.toml: "@ + e),
            ),
            None => ReloadModel::Apply,
        },
    }
}

/// Decides a `remote.reload` on the loaded entries, or on the error that
/// loading gave.
pub fn plan_remote_reload(id: &str, loaded: &Result<Vec<RemoteEntry>, String>) -> (r: Reload)
    ensures
        r@ == reload_of(id@, *loaded),
{
    match loaded {
        Err(e) => {
            let message = "failed to load remotes.toml: ".to_owned().concat(e.as_str());
            Reload::Refuse(failure(id, "remote_config_invalid", message.as_str()))
        },
        Ok(entries) => match crate::fleet::config::validate_entries(entries.as_slice()) {
            Err(e) => {
                let message = "invalid remotes.toml: ".to_owned().concat(e.as_str());
                Reload::Refuse(failure(id, "remote_config_invalid", message.as_str()))
            },
            Ok(_) => Reload::Apply,
        },
    }
}

} // verus!
