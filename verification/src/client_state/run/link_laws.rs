//! What connecting, losing and keeping a link does to the state, outcome by
//! outcome.
use crate::client_state::connection::ConnectionModel;
use crate::client_state::fleet_view::at_index;
use crate::client_state::run::connect::{bridge_failure, session_capabilities, tailed, ConnectStage};
use crate::client_state::run::links::{attempts, client_switch, heartbeat, EstablishedModel};
use crate::client_state::run::frames::{frame_step, EffectModel};
use crate::client_state::run::state::LoopModel;
use crate::client_state::session::{LinkModel, Pending, SessionModel};
use crate::fleet::status::stopped_line;
use crate::json::JsonView;
use crate::protocol::framed::{Frame, HelloRemedy, WelcomeModel};
use crate::protocol::wire_shapes::plain_requests_are_their_method;
use crate::seqs::first_index_is;
use crate::text::trimmed;
use vstd::prelude::*;

verus! {

/// The override decides where it says `1` or `0`, else the setting, else the
/// client is on.
pub proof fn the_switch_is_resolved(over: Option<Seq<char>>, setting: Option<bool>)
    ensures
        over == Some("1"@) ==> client_switch(over, setting),
        over == Some("0"@) ==> !client_switch(over, setting),
        over != Some("1"@) && over != Some("0"@) && setting is Some ==> client_switch(over, setting)
            == setting->Some_0,
        over is None && setting is None ==> client_switch(over, setting),
{
    reveal_strlit("1");
    reveal_strlit("0");
    assert("1"@[0] != "0"@[0]);
}

/// The remote is configured at that place of the list.
pub open spec fn configured(m: LoopModel, remote: usize, at: int) -> bool {
    &&& 0 <= at < m.descriptors.len()
    &&& m.descriptors[at].index == remote
    &&& forall|j: int| 0 <= j < at ==> (#[trigger] m.descriptors[j]).index != remote
}

/// An attempt on a mirrored remote is under way: its link waits for a new
/// generation, its mirror counts one failure more than before as the attempt,
/// and nothing mirrored is lost yet. Other remotes are left alone.
pub proof fn attempts_are_under_way(m: LoopModel, remote: usize, at: int, now: u64, other: usize)
    requires
        configured(m, remote, at),
        m.mirrors.contains_key(remote),
        m.ui.next_generation < u64::MAX,
        other != remote,
    ensures
        ({
            let (r, generation) = m.connect_begun(remote, now);
            &&& generation == Some((m.ui.next_generation + 1) as u64)
            &&& r.ui.next_generation == m.ui.next_generation + 1
            &&& r.links.contains_key(remote) && r.links[remote] == (LinkModel::Pending {
                generation: (m.ui.next_generation + 1) as u64,
            })
            &&& r.mirrors[remote].connection matches ConnectionModel::Connecting { attempt } && {
                &&& m.mirrors[remote].connection is Disconnected || m.mirrors[remote].connection is Connected
                    ==> attempt == 1
                &&& m.mirrors[remote].connection matches ConnectionModel::Offline {
                    attempt: failed,
                    ..
                } ==> failed < u32::MAX ==> attempt == failed + 1
            }
            &&& r.mirrors[remote].catalog == m.mirrors[remote].catalog
            &&& r.mirrors[remote].name == m.mirrors[remote].name
            &&& m.descriptors[at].target is Some ==> r.chrome == m.chrome
            &&& m.descriptors[at].target is None && (m.app.chip_strip_height == 0)
                ==> r.chrome.connection_status == Some("connecting to the local server"@)
            &&& r.links.contains_key(other) == m.links.contains_key(other)
            &&& r.mirrors.contains_key(other) == m.mirrors.contains_key(other)
            &&& m.mirrors.contains_key(other) ==> r.mirrors[other] == m.mirrors[other]
        }),
{
    first_index_is(m.descriptors, at_index(remote), at);
}

/// The link waits for exactly this attempt's outcome.
pub open spec fn awaited(m: LoopModel, remote: usize, generation: u64) -> bool {
    &&& m.links.contains_key(remote)
    &&& m.links[remote] == (LinkModel::Pending { generation })
    &&& m.mirrors.contains_key(remote)
}

/// A session that was agreed on is up under the attempt's generation, with a
/// snapshot asked for. Its mirror is connected with what was agreed, and
/// starts out empty. A bridge may hold 1024 frames, a local socket any number.
pub proof fn agreed_sessions_are_up(
    m: LoopModel,
    remote: usize,
    generation: u64,
    welcome: WelcomeModel,
    now: u64,
    local: bool,
)
    requires
        awaited(m, remote, generation),
        ({
            let fresh = SessionModel::fresh(generation, now, None);
            crate::json::json_bytes(
                crate::client_state::session::next_snapshot_request(fresh),
            ).len() <= crate::protocol::frame::MAX_FRAME_PAYLOAD
        }),
    ensures
        ({
            let outcome = if local {
                EstablishedModel::Local { welcome }
            } else {
                EstablishedModel::Bridge { welcome }
            };
            let r = m.established(remote, generation, outcome, now);
            &&& r.ui.ever_connected
            &&& r.mirrors[remote].connection == (ConnectionModel::Connected {
                protocol: welcome.protocol,
                capabilities: welcome.capabilities,
            })
            &&& r.mirrors[remote].catalog.panes.len() == 0
            &&& r.mirrors[remote].replicas.len() == 0
            &&& r.mirrors[remote].pane_streams.len() == 0
            &&& r.mirrors[remote].name == m.mirrors[remote].name
            &&& r.session(remote) matches Some(s) && {
                &&& s.generation == generation
                &&& s.last_inbound == now
                &&& now <= u64::MAX - 5_000 ==> s.next_ping == now + 5_000
                &&& s.bound == if local {
                    None
                } else {
                    Some(1024usize)
                }
                &&& s.outbox.len() == 1
                &&& s.outbox[0].field("method"@) == Some(JsonView::Text("session.snapshot"@))
                &&& s.pending.contains_key(first_snapshot_id()) && s.pending[first_snapshot_id()] is Snapshot
                &&& s.outbox[0].field("id"@) == Some(JsonView::Text(first_snapshot_id()))
                &&& s.sent_sizes.len() == 0 && s.read_only.len() == 0
            }
            &&& local && m.app.chip_strip_height == 0 ==> r.chrome.connection_status is None
            &&& !local ==> r.chrome == m.chrome
        }),
{
    let bound = if local {
        None
    } else {
        Some(crate::client_state::session::REMOTE_WRITE_QUEUE_FRAMES)
    };
    let fresh = SessionModel::fresh(generation, now, bound);
    plain_requests_are_their_method(first_snapshot_id());
    assert(fresh.next_id("snapshot"@) == first_snapshot_id());
    assert(SessionModel::fresh(generation, now, None).next_id("snapshot"@) == first_snapshot_id());
}

/// The id of a session's first snapshot request.
pub open spec fn first_snapshot_id() -> Seq<char> {
    "pure:"@ + "snapshot"@ + ":"@ + crate::text::decimal(1)
}

/// A failed attempt leaves the remote offline with the failure's text, to be
/// tried again after the time that came with it; its catalog stays, its
/// streams go.
pub proof fn failed_attempts_are_retried(
    m: LoopModel,
    remote: usize,
    generation: u64,
    error: Seq<char>,
    retry_in: u64,
    now: u64,
)
    requires
        awaited(m, remote, generation),
    ensures
        ({
            let r = m.established(
                remote,
                generation,
                EstablishedModel::Failed { error, retry_in },
                now,
            );
            &&& now + retry_in <= u64::MAX ==> r.links[remote] == (LinkModel::Down {
                retry_at: (now + retry_in) as u64,
            })
            &&& r.mirrors[remote].connection matches ConnectionModel::Offline { last_error, attempt }
                && last_error == error && (m.mirrors[remote].connection matches
                ConnectionModel::Connecting { attempt: n } ==> attempt == n)
            &&& r.mirrors[remote].catalog == m.mirrors[remote].catalog
            &&& r.mirrors[remote].replicas.len() == 0
            &&& r.mirrors[remote].pane_streams.len() == 0
            &&& m.is_local(remote) && m.app.chip_strip_height == 0 ==> r.chrome.connection_status
                == Some("local server unreachable; retrying: "@ + error)
            &&& !m.is_local(remote) ==> r.chrome == m.chrome
        }),
{
}

/// A remote whose version does not fit is not retried, and the line says what
/// to upgrade; a remote without a server is parked with the start prompt.
pub proof fn dead_ends_are_shown(
    m: LoopModel,
    remote: usize,
    generation: u64,
    remedy: HelloRemedy,
    message: Seq<char>,
    now: u64,
)
    requires
        awaited(m, remote, generation),
    ensures
        ({
            let name = m.mirrors[remote].name;
            let r = m.established(
                remote,
                generation,
                EstablishedModel::Incompatible { remedy, message },
                now,
            );
            &&& r.links[remote] is Incompatible
            &&& r.mirrors[remote].connection == (ConnectionModel::Incompatible { remedy, message })
            &&& remedy is UpgradeClient ==> r.chrome.connection_status == Some(
                name + ": "@ + message + "; upgrade this herdr client"@,
            )
            &&& remedy is UpgradeServer && m.is_local(remote) ==> r.chrome.connection_status
                == Some(name + ": "@ + message + "; restart the local herdr server"@)
            &&& remedy is UpgradeServer && !m.is_local(remote) ==> r.chrome.connection_status
                == Some(name + ": "@ + message + ("; run `herdr remote upgrade "@ + name + "`"@))
        }),
        ({
            let name = m.mirrors[remote].name;
            let r = m.established(
                remote,
                generation,
                EstablishedModel::Stopped { status: message },
                now,
            );
            &&& r.links[remote] is Stopped
            &&& r.mirrors[remote].connection == (ConnectionModel::Stopped { message })
            &&& r.chrome.connection_status == Some(message)
            &&& r.chrome.remote_start matches Some(p) && p.remote == remote && p.name == name
                && p.status == message && p.error is None && !p.starting
        }),
        stopped_line(message) == message + ": no server running; start it with `herdr remote start "@
            + message + "`"@,
{
}

/// A writer that could not start is a failure of a session that was agreed
/// on: offline, tried again after a second.
pub proof fn writers_that_fail_are_retried(
    m: LoopModel,
    remote: usize,
    generation: u64,
    welcome: WelcomeModel,
    error: Seq<char>,
    now: u64,
)
    requires
        awaited(m, remote, generation),
    ensures
        ({
            let r = m.established(
                remote,
                generation,
                EstablishedModel::WriterFailed { welcome, error },
                now,
            );
            &&& now + 1_000 <= u64::MAX ==> r.links[remote] == (LinkModel::Down {
                retry_at: (now + 1_000) as u64,
            })
            &&& r.mirrors[remote].connection == (ConnectionModel::Offline {
                attempt: 0,
                last_error: "writer thread spawn failed: "@ + error,
            })
            &&& r.mirrors[remote].catalog.panes.len() == 0
        }),
{
}

/// A link that is lost is tried again after half a second. Its mirror is
/// offline with the reason, keeps its catalog, and streams nothing. A link
/// that is parked stays parked.
pub proof fn lost_links_wait_half_a_second(
    m: LoopModel,
    remote: usize,
    why: Seq<char>,
    now: u64,
    other: usize,
)
    requires
        m.links.contains_key(remote),
        m.mirrors.contains_key(remote),
        other != remote,
    ensures
        ({
            let r = m.dropped(remote, why, now);
            let parked = m.links[remote] is Stopped || m.links[remote] is Incompatible;
            &&& parked ==> r == m
            &&& !parked ==> {
                &&& now + 500 <= u64::MAX ==> r.links[remote] == (LinkModel::Down {
                    retry_at: (now + 500) as u64,
                })
                &&& r.mirrors[remote].connection matches ConnectionModel::Offline {
                    last_error,
                    ..
                } && last_error == why
                &&& r.mirrors[remote].catalog == m.mirrors[remote].catalog
                &&& r.mirrors[remote].replicas.len() == 0
                &&& r.mirrors[remote].pane_streams.len() == 0
                &&& remote == 0 && m.app.chip_strip_height == 0 ==> r.chrome.connection_status
                    == Some(why + "; reconnecting"@)
                &&& remote != 0 ==> r.chrome == m.chrome
            }
            &&& r.links.contains_key(other) == m.links.contains_key(other)
            &&& m.links.contains_key(other) ==> r.links[other] == m.links[other]
            &&& r.mirrors.contains_key(other) == m.mirrors.contains_key(other)
            &&& m.mirrors.contains_key(other) ==> r.mirrors[other] == m.mirrors[other]
        }),
{
}

/// A frame is heard by the session it came on; a link is due once its time
/// has come and its mirror may be tried.
pub proof fn hearing_and_waiting(m: LoopModel, remote: usize, now: u64, s: SessionModel)
    requires
        m.mirrors.contains_key(remote),
    ensures
        m.session(remote) == Some(s) ==> m.heard(remote, now).session(remote) == Some(
            SessionModel { last_inbound: now, ..s },
        ),
        m.heard(remote, now).mirrors == m.mirrors,
        m.is_due(remote, now) <==> {
            &&& m.links.contains_key(remote)
            &&& m.links[remote] matches LinkModel::Down { retry_at } && retry_at <= now
            &&& m.mirrors[remote].connection is Disconnected
                || m.mirrors[remote].connection is Offline
        },
{
}

/// Only the current session is heard: its frames are interpreted, its end is
/// the end of the connection. What comes from an earlier one is dropped.
pub proof fn only_current_sessions_are_heard(
    m: LoopModel,
    remote: usize,
    generation: u64,
    frame: Frame,
    now: u64,
    s: SessionModel,
)
    requires
        m.session(remote) == Some(s),
        m.mirrors.contains_key(remote),
    ensures
        generation != s.generation ==> m.received(remote, generation, frame, now) == (
            m,
            EffectModel::Nothing,
        ) && m.ended(remote, generation, now) == m,
        generation == s.generation ==> {
            &&& m.received(remote, generation, frame, now) == frame_step(
                m.with_session(remote, SessionModel { last_inbound: now, ..s }),
                remote,
                frame,
            )
            &&& m.ended(remote, generation, now).mirrors[remote].connection matches
                ConnectionModel::Offline { last_error, .. } && last_error == "connection closed"@
            &&& m.ended(remote, generation, now).links[remote] is Down
        },
{
}

/// A peer that was silent for fifteen seconds loses its link; one that was
/// not is pinged every five seconds.
pub proof fn heartbeats_keep_time(
    was: LoopModel,
    now: LoopModel,
    remote: usize,
    at: u64,
    s: SessionModel,
)
    requires
        heartbeat(was, now, remote, at),
        was.session(remote) == Some(s),
        was.mirrors.contains_key(remote),
        at < u64::MAX - 15_000,
    ensures
        at >= s.last_inbound + 15_000 ==> {
            &&& now.links[remote] == (LinkModel::Down { retry_at: (at + 500) as u64 })
            &&& now.mirrors[remote].connection matches ConnectionModel::Offline { last_error, .. }
                && last_error == "heartbeat timed out"@
            &&& now.mirrors[remote].catalog == was.mirrors[remote].catalog
        },
        at < s.last_inbound + 15_000 ==> {
            &&& now.session(remote) matches Some(t) && {
                &&& t.last_inbound == s.last_inbound
                &&& at < s.next_ping ==> t == s
                &&& at >= s.next_ping ==> {
                    &&& t.next_ping == at + 5_000
                    &&& t.outbox == s.outbox || {
                        &&& t.outbox.drop_last() == s.outbox
                        &&& t.outbox.last().field("method"@) == Some(JsonView::Text("ping"@))
                        &&& t.outbox.last().field("id"@) == Some(JsonView::Text(s.next_id("ping"@)))
                        &&& t.pending.contains_key(s.next_id("ping"@))
                        &&& t.pending[s.next_id("ping"@)] is Ping
                    }
                }
            }
            &&& now.mirrors[remote] == was.mirrors[remote]
        },
{
    let id = s.next_id("ping"@);
    plain_requests_are_their_method(id);
    let v = crate::protocol::framed::request_view(
        id,
        crate::protocol::framed::PING_METHOD@,
        Seq::empty(),
    );
    assert(s.outbox.push(v).drop_last() =~= s.outbox);
}

/// What a failed attempt says of the step it failed at. A bridge's own words
/// are added while it might have been the cause.
pub proof fn failures_name_their_step(
    error: Seq<char>,
    elapsed_ms: u64,
    stderr: Seq<char>,
)
    ensures
        ConnectStage::Reach.failed() + error == "api socket unreachable: "@ + error,
        bridge_failure(ConnectStage::Spawn, error, elapsed_ms, stderr)
            == "ssh bridge spawn failed: "@ + error,
        bridge_failure(ConnectStage::Magic, error, elapsed_ms, stderr) == tailed(
            "framed handshake failed: "@ + error,
            stderr,
        ),
        bridge_failure(ConnectStage::Hello, error, elapsed_ms, stderr) == tailed(
            "session.hello send failed: "@ + error,
            stderr,
        ),
        elapsed_ms < 10_000 ==> bridge_failure(ConnectStage::Answer, error, elapsed_ms, stderr)
            == tailed("session.hello failed: "@ + error, stderr),
        elapsed_ms >= 10_000 ==> bridge_failure(ConnectStage::Answer, error, elapsed_ms, stderr)
            == "session.hello timed out after "@ + crate::text::decimal(10) + "s"@,
        bridge_failure(ConnectStage::Reading, error, elapsed_ms, stderr)
            == "invalid hello answer: "@ + error,
        trimmed(stderr).len() == 0 ==> tailed(error, stderr) == error,
        trimmed(stderr).len() > 0 ==> tailed(error, stderr) == error + " (ssh: "@
            + crate::client_state::run::connect::on_one_line(trimmed(stderr)) + ")"@,
{
    lines_stay(trimmed(stderr));
}

proof fn lines_stay(t: Seq<char>)
    ensures
        t.len() > 0 ==> crate::client_state::run::connect::on_one_line(t).len() > 0,
        t.len() == 0 ==> crate::client_state::run::connect::on_one_line(t).len() == 0,
{
    reveal_strlit("; ");
}

/// Lines are joined with a semicolon and a blank; text without a line break
/// stays.
pub proof fn lines_are_joined(a: Seq<char>, b: Seq<char>)
    ensures
        crate::client_state::run::connect::on_one_line(a.push('\n') + b)
            == crate::client_state::run::connect::on_one_line(a) + "; "@
            + crate::client_state::run::connect::on_one_line(b),
        !a.contains('\n') ==> crate::client_state::run::connect::on_one_line(a) == a,
    decreases b.len() + a.len(),
{
    let all = a.push('\n') + b;
    if b.len() == 0 {
        assert(all =~= a.push('\n'));
        assert(all.drop_last() =~= a);
        assert(crate::client_state::run::connect::on_one_line(a) + "; "@ + b
            =~= crate::client_state::run::connect::on_one_line(a) + "; "@);
    } else {
        lines_are_joined(a, b.drop_last());
        assert(all.last() == b.last());
        assert(all.drop_last() =~= a.push('\n') + b.drop_last());
        let head = crate::client_state::run::connect::on_one_line(a) + "; "@;
        let rest = crate::client_state::run::connect::on_one_line(b.drop_last());
        if b.last() == '\n' {
            assert((head + rest) + "; "@ =~= head + (rest + "; "@));
        } else {
            assert((head + rest).push(b.last()) =~= head + rest.push(b.last()));
        }
    }
    if !a.contains('\n') && a.len() > 0 {
        assert(a.contains(a.last())) by {
            assert(a[a.len() - 1] == a.last());
        }
        assert forall|i: int| 0 <= i < a.len() - 1 implies a.drop_last()[i] != '\n' by {
            assert(a.contains(a[i]));
        }
        assert(!a.drop_last().contains('\n'));
        lines_are_joined(a.drop_last(), Seq::empty());
        assert(a.drop_last().push(a.last()) =~= a);
    }
}

/// What every session asks for.
pub proof fn sessions_ask_for_everything(c: Seq<char>)
    ensures
        session_capabilities().contains(c) <==> c == "pane-stream"@ || c == "catalog"@ || c
            == "notification"@ || c == "window-title"@ || c == "paste-image"@,
        session_capabilities().len() == 5,
{
    let all = session_capabilities();
    assert(all[0] == "pane-stream"@);
    assert(all[1] == "catalog"@);
    assert(all[2] == "notification"@);
    assert(all[3] == "window-title"@);
    assert(all[4] == "paste-image"@);
}

/// Remotes that are due are tried one after the other; every attempt that is
/// under way is reported with its generation.
pub proof fn due_remotes_are_tried_in_turn(m: LoopModel, remotes: Seq<usize>, last: usize, now: u64)
    ensures
        ({
            let before = m.reconnected(remotes, now);
            let (after, generation) = before.connect_begun(last, now);
            &&& m.reconnected(remotes.push(last), now) == after
            &&& generation matches Some(g) ==> attempts(m, remotes.push(last), now) == attempts(
                m,
                remotes,
                now,
            ).push((last, g))
            &&& generation is None ==> attempts(m, remotes.push(last), now) == attempts(
                m,
                remotes,
                now,
            )
        }),
        m.reconnected(Seq::empty(), now) == m,
        attempts(m, Seq::empty(), now).len() == 0,
{
    assert(remotes.push(last).drop_last() =~= remotes);
}

/// A remote that is not configured is not tried. A local one without a mirror
/// is put off for a second; one over a bridge is tried all the same.
pub proof fn attempts_need_a_configured_remote(m: LoopModel, remote: usize, at: int, now: u64)
    requires
        !m.mirrors.contains_key(remote),
        now <= u64::MAX - 1_000,
    ensures
        (forall|j: int| 0 <= j < m.descriptors.len() ==> (#[trigger] m.descriptors[j]).index
            != remote) ==> m.connect_begun(remote, now).0 == m && m.connect_begun(
            remote,
            now,
        ).1 is None,
        configured(m, remote, at) && m.descriptors[at].target is None ==> {
            let (r, generation) = m.connect_begun(remote, now);
            &&& generation is None
            &&& r.links.contains_key(remote) && r.links[remote] == (LinkModel::Down {
                retry_at: (now + 1_000) as u64,
            })
            &&& r.mirrors == m.mirrors && r.ui == m.ui
        },
        configured(m, remote, at) && m.descriptors[at].target is Some ==> {
            let (r, generation) = m.connect_begun(remote, now);
            &&& generation == Some(r.ui.next_generation)
            &&& r.links.contains_key(remote) && r.links[remote] == (LinkModel::Pending {
                generation: r.ui.next_generation,
            })
            &&& r.mirrors == m.mirrors && r.chrome == m.chrome
        },
{
    if configured(m, remote, at) {
        first_index_is(m.descriptors, at_index(remote), at);
    }
    if forall|j: int| 0 <= j < m.descriptors.len() ==> (#[trigger] m.descriptors[j]).index
        != remote {
        first_index_is(m.descriptors, at_index(remote), m.descriptors.len() as int);
    }
}

} // verus!
