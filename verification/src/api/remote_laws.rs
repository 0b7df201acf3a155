//! Remotes as they stand on the wire.
use crate::api::remotes::{
    failure_view, info_view, list_view, reload_of, reset_refusal, reset_reply, resting_info,
    success_view, ReloadModel, RemoteConnectionStateInfo, RemoteInfo,
};
use crate::fleet::config::{list_refusal, valid_name, RemoteEntry};
use crate::fleet::config_laws::accepted_lists_have_distinct_names;
use crate::json::JsonView;
use crate::protocol::wire_shapes::{named_from, named_is_found};
use vstd::prelude::*;

verus! {

/// A remote is listed with its number, name and state; what is not known of
/// it is left out.
pub proof fn remotes_are_listed_as_they_are(i: RemoteInfo)
    ensures
        ({
            let v = info_view(i);
            &&& v.field("index"@) == Some(JsonView::Unsigned(i.index as u64))
            &&& v.field("name"@) == Some(JsonView::Text(i.name@))
            &&& v.field("enabled"@) == Some(JsonView::Bool(i.enabled))
            &&& v.field("state"@) == Some(JsonView::Text(i.state.wire()))
            &&& v.field("target"@) == match i.target {
                Some(t) => Some(JsonView::Text(t@)),
                None => None,
            }
            &&& v.field("session"@) == match i.session {
                Some(t) => Some(JsonView::Text(t@)),
                None => None,
            }
            &&& v.field("attempt"@) == match i.attempt {
                Some(n) => Some(JsonView::Unsigned(n as u64)),
                None => None,
            }
            &&& v.field("retry_in_ms"@) == match i.retry_in_ms {
                Some(n) => Some(JsonView::Unsigned(n)),
                None => None,
            }
            &&& v.field("last_error"@) == match i.last_error {
                Some(t) => Some(JsonView::Text(t@)),
                None => None,
            }
        }),
{
    let members = info_view(i)->Object_0;
    reveal_with_fuel(named_from, 10);
    reveal_strlit("index");
    reveal_strlit("name");
    reveal_strlit("target");
    reveal_strlit("session");
    reveal_strlit("enabled");
    reveal_strlit("state");
    reveal_strlit("attempt");
    reveal_strlit("retry_in_ms");
    reveal_strlit("last_error");
    assert("index"@.len() == 5);
    assert("name"@.len() == 4);
    assert("target"@.len() == 6);
    assert("session"@.len() == 7);
    assert("enabled"@.len() == 7);
    assert("state"@.len() == 5);
    assert("attempt"@.len() == 7);
    assert("retry_in_ms"@.len() == 11);
    assert("last_error"@.len() == 10);
    assert("index"@[0] != "state"@[0]);
    assert("session"@[0] != "enabled"@[0]);
    assert("session"@[0] != "attempt"@[0]);
    assert("enabled"@[0] != "attempt"@[0]);
    named_is_found(members, 0, "index"@);
    named_is_found(members, 0, "name"@);
    named_is_found(members, 0, "target"@);
    named_is_found(members, 0, "session"@);
    named_is_found(members, 0, "enabled"@);
    named_is_found(members, 0, "state"@);
    named_is_found(members, 0, "attempt"@);
    named_is_found(members, 0, "retry_in_ms"@);
    named_is_found(members, 0, "last_error"@);
}

/// The states by their names.
pub proof fn states_have_their_names()
    ensures
        RemoteConnectionStateInfo::Local.wire() == "local"@,
        RemoteConnectionStateInfo::Connecting.wire() == "connecting"@,
        RemoteConnectionStateInfo::Connected.wire() == "connected"@,
        RemoteConnectionStateInfo::Offline.wire() == "offline"@,
        RemoteConnectionStateInfo::Disabled.wire() == "disabled"@,
        RemoteConnectionStateInfo::Stopped.wire() == "stopped"@,
        RemoteConnectionStateInfo::Incompatible.wire() == "incompatible"@,
        RemoteConnectionStateInfo::Unknown.wire() == "unknown"@,
{
}

/// With no fleet running, an entry is what it is configured as: disabled,
/// local, or of a state that is not known.
pub proof fn resting_remotes_are_as_configured(e: RemoteEntry, index: usize)
    ensures
        ({
            let i = resting_info(e, index);
            &&& i.index == index && i.name == e.name && i.target == e.target && i.session == Some(
                e.session,
            ) && i.enabled == e.enabled
            &&& i.state is Disabled <==> !e.enabled
            &&& i.state is Local <==> e.enabled && e.target is None
            &&& i.state is Unknown <==> e.enabled && e.target is Some
            &&& i.attempt is None && i.retry_in_ms is None && i.last_error is None
        }),
{
}

/// The list answer holds every remote, in order, under the request's id.
pub proof fn lists_hold_every_remote(id: Seq<char>, infos: Seq<RemoteInfo>, k: int)
    requires
        0 <= k < infos.len(),
    ensures
        ({
            let v = success_view(id, list_view(infos));
            &&& v.field("id"@) == Some(JsonView::Text(id))
            &&& v.field("result"@) matches Some(r) && r.field("type"@) == Some(
                JsonView::Text("remote_list"@),
            ) && (r.field("remotes"@) matches Some(JsonView::Array(items)) && items.len()
                == infos.len() && items[k] == info_view(infos[k]))
        }),
{
    let members = success_view(id, list_view(infos))->Object_0;
    let result = list_view(infos)->Object_0;
    reveal_with_fuel(named_from, 4);
    reveal_strlit("id");
    reveal_strlit("result");
    reveal_strlit("type");
    reveal_strlit("remotes");
    assert("id"@.len() == 2);
    assert("result"@.len() == 6);
    assert("type"@.len() == 4);
    assert("remotes"@.len() == 7);
    named_is_found(members, 0, "id"@);
    named_is_found(members, 0, "result"@);
    named_is_found(result, 0, "type"@);
    named_is_found(result, 0, "remotes"@);
}

/// A local runtime is never reset, nothing is without a fleet, and only a
/// remote that there is can be.
pub proof fn resets_are_answered(id: Seq<char>, name: Seq<char>, running: bool)
    ensures
        reset_refusal("local"@, running) == Some(
            ("invalid_remote"@, "the local runtime has no connection to reset"@),
        ),
        name != "local"@ && !running ==> reset_refusal(name, running) == Some(
            ("fleet_not_running"@, "no fleet connection manager is running in this process"@),
        ),
        name != "local"@ && running ==> reset_refusal(name, running) is None,
        ({
            let v = reset_reply(id, name, true);
            &&& v.field("id"@) == Some(JsonView::Text(id))
            &&& v.field("error"@) is None
            &&& v.field("result"@) matches Some(r) && r.field("type"@) == Some(JsonView::Text("ok"@))
        }),
        ({
            let v = reset_reply(id, name, false);
            &&& v.field("id"@) == Some(JsonView::Text(id))
            &&& v.field("result"@) is None
            &&& v.field("error"@) matches Some(e) && e.field("code"@) == Some(
                JsonView::Text("remote_not_found"@),
            ) && e.field("message"@) == Some(
                JsonView::Text("no enabled remote named '"@ + name + "'"@),
            )
        }),
{
    reveal_with_fuel(named_from, 4);
    reveal_strlit("id");
    reveal_strlit("result");
    reveal_strlit("error");
    reveal_strlit("type");
    reveal_strlit("code");
    reveal_strlit("message");
    assert("id"@.len() == 2);
    assert("result"@.len() == 6);
    assert("error"@.len() == 5);
    assert("type"@.len() == 4);
    assert("code"@.len() == 4);
    assert("message"@.len() == 7);
    assert("type"@[0] != "code"@[0]);
    let ok = reset_reply(id, name, true)->Object_0;
    let result = ok[1].1->Object_0;
    let bad = reset_reply(id, name, false)->Object_0;
    let error = bad[1].1->Object_0;
    named_is_found(ok, 0, "id"@);
    named_is_found(ok, 0, "error"@);
    named_is_found(ok, 0, "result"@);
    named_is_found(result, 0, "type"@);
    named_is_found(bad, 0, "id"@);
    named_is_found(bad, 0, "error"@);
    named_is_found(bad, 0, "result"@);
    named_is_found(error, 0, "code"@);
    named_is_found(error, 0, "message"@);
}

/// An error answer carries its request's id, its code and its message.
pub proof fn failures_carry_their_parts(id: Seq<char>, code: Seq<char>, message: Seq<char>)
    ensures
        ({
            let v = failure_view(id, code, message);
            &&& v.field("id"@) == Some(JsonView::Text(id))
            &&& v.field("error"@) matches Some(e) && e.field("code"@) == Some(JsonView::Text(code))
                && e.field("message"@) == Some(JsonView::Text(message))
        }),
{
    reveal_with_fuel(named_from, 4);
    reveal_strlit("id");
    reveal_strlit("error");
    reveal_strlit("code");
    reveal_strlit("message");
    assert("id"@.len() == 2);
    assert("error"@.len() == 5);
    assert("code"@.len() == 4);
    assert("message"@.len() == 7);
    let members = failure_view(id, code, message)->Object_0;
    let error = members[1].1->Object_0;
    named_is_found(members, 0, "id"@);
    named_is_found(members, 0, "error"@);
    named_is_found(error, 0, "code"@);
    named_is_found(error, 0, "message"@);
}

/// A config that loads is applied exactly where every name in it is valid and
/// no two entries share one; anything else is refused as an invalid config.
pub proof fn reloads_apply_valid_configs(id: Seq<char>, loaded: Result<Vec<RemoteEntry>, String>)
    ensures
        ({
            let r = reload_of(id, loaded);
            &&& r is Apply <==> (loaded matches Ok(list) && (forall|i: int|
                0 <= i < list@.len() ==> valid_name((#[trigger] list@[i]).name@)) && (forall|
                i: int,
                j: int,
            |
                0 <= i < j < list@.len() ==> (#[trigger] list@[i]).name@ != (
                #[trigger] list@[j]).name@))
            &&& r matches ReloadModel::Refuse(v) ==> v.field("id"@) == Some(JsonView::Text(id)) && (
            v.field("error"@) matches Some(e) && e.field("code"@) == Some(
                JsonView::Text("remote_config_invalid"@),
            ))
            &&& loaded matches Err(e) ==> r == ReloadModel::Refuse(
                failure_view(
                    id,
                    "remote_config_invalid"@,
                    "failed to load remotes.toml: "@ + e@,
                ),
            )
        }),
{
    match loaded {
        Ok(list) => {
            accepted_lists_have_distinct_names(list@);
            if let Some(e) = list_refusal(list@) {
                failures_carry_their_parts(
                    id,
                    "remote_config_invalid"@,
                    "invalid remotes.toml: "@ + e,
                );
            }
        },
        Err(e) => {
            failures_carry_their_parts(
                id,
                "remote_config_invalid"@,
                "failed to load remotes.toml: "@ + e@,
            );
        },
    }
}

} // verus!
