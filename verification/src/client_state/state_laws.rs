//! What sessions, connections, pane ids and tab layouts come to.
use crate::api::schema::{PaneInfo, PaneLayoutSnapshot};
use crate::client_state::compose::{
    after_last_underscore, custom_name, number_in, pane_ids, pane_numbers, tab_layout, tab_tree,
};
use crate::client_state::compose_ids::{
    focused_public, id_of, knows, pane_is_focused, retained, retained_one, slot_for, PaneSlot,
};
use crate::client_state::connection::ConnectionModel;
use crate::client_state::fleet_view::{at_index, RemoteDescriptor};
use crate::client_state::app_state::Node;
use crate::client_state::layout::tree_of;
use crate::client_state::mirror::{MirrorModel, PaneReplica};
use crate::client_state::run::state::{fresh_mirrors, LoopModel};
use crate::client_state::session::{
    hello_outcome, HelloOutcome, Pending, SendError, SessionModel,
};
use crate::json::{json_bytes, JsonView};
use crate::protocol::framed::{error_of, welcome_of, HelloRemedy};
use crate::seqs::first_index_is;
use crate::text::decimal;
use vstd::prelude::*;

verus! {

/// A message is queued behind the others unless it is longer than a frame,
/// the writer is gone or the queue is full, in that order; a message that is
/// not queued changes nothing.
pub proof fn messages_are_queued_in_order(s: SessionModel, message: JsonView)
    ensures
        ({
            let r = s.sent(message);
            let long = json_bytes(message).len() > 4_194_304;
            let full = s.bound matches Some(n) && s.outbox.len() >= n;
            &&& !long && s.writable && !full ==> s.can_send(message) && r.outbox == s.outbox.push(
                message,
            ) && r == (SessionModel { outbox: r.outbox, ..s })
            &&& long || !s.writable || full ==> r == s && !s.can_send(message)
            &&& long ==> s.refusal(message) == Some(SendError::TooLarge)
            &&& !long && !s.writable ==> s.refusal(message) == Some(SendError::WriterEnded)
            &&& !long && s.writable && full ==> s.refusal(message) == Some(SendError::QueueFull)
        }),
        SendError::TooLarge.text() == "frame payload too large"@,
        SendError::QueueFull.text() == "remote write queue full (stalled connection)"@,
        SendError::WriterEnded.text() == "remote writer thread ended"@,
{
}

/// Requests are numbered one after the other, under the kind they are of. One
/// that must go out is expected only if it did; the others always are.
pub proof fn requests_are_numbered_and_expected(
    s: SessionModel,
    kind: Seq<char>,
    pending: Pending,
    message: JsonView,
    other: Seq<char>,
)
    requires
        s.next_request_id < u64::MAX,
        other != s.next_id(kind),
    ensures
        ({
            let id = s.next_id(kind);
            let asked = s.asked(kind, pending, message);
            let posted = s.posted(kind, pending, message);
            &&& id == "pure:"@ + kind + ":"@ + decimal(s.next_request_id as nat)
            &&& asked.next_request_id == s.next_request_id + 1
            &&& posted.next_request_id == s.next_request_id + 1
            &&& s.can_send(message) ==> asked.pending.contains_key(id) && asked.pending[id]
                == pending && asked.outbox == s.outbox.push(message)
            &&& !s.can_send(message) ==> !asked.pending.contains_key(id) && asked.outbox == s.outbox
            &&& posted.pending.contains_key(id) && posted.pending[id] == pending
            &&& s.can_send(message) ==> posted.outbox == s.outbox.push(message)
            &&& !s.can_send(message) ==> posted.outbox == s.outbox
            &&& asked.pending.contains_key(other) == s.pending.contains_key(other)
            &&& posted.pending.contains_key(other) == s.pending.contains_key(other)
            &&& asked.sent_sizes == s.sent_sizes && asked.read_only == s.read_only
        }),
{
}

/// A session starts with nothing expected, told or queued, and its first ping
/// five seconds on.
pub proof fn sessions_start_fresh(generation: u64, now: u64, bound: Option<usize>)
    ensures
        ({
            let s = SessionModel::fresh(generation, now, bound);
            &&& s.generation == generation && s.last_inbound == now && s.bound == bound
            &&& now <= u64::MAX - 5_000 ==> s.next_ping == now + 5_000
            &&& s.next_request_id == 1 && s.writable
            &&& s.pending.len() == 0 && s.sent_sizes.len() == 0 && s.read_only.len() == 0
                && s.outbox.len() == 0
        }),
{
}

/// Failures count up from attempt to attempt; a remote may be tried while it
/// is disconnected or offline, and at no other time. Only a live session
/// grants anything.
pub proof fn connections_count_failures(c: ConnectionModel, error: Seq<char>, capability: Seq<char>)
    ensures
        c matches ConnectionModel::Connecting { attempt } ==> c.failed(error) == (
        ConnectionModel::Offline { attempt, last_error: error }),
        c matches ConnectionModel::Offline { attempt, .. } ==> c.failed(error) == (
        ConnectionModel::Offline { attempt, last_error: error }) && (attempt < u32::MAX
            ==> c.next_attempt() == attempt + 1),
        c is Connected || c is Disconnected ==> c.failed(error) == (ConnectionModel::Offline {
            attempt: 0,
            last_error: error,
        }) && c.next_attempt() == 1,
        c.retries() <==> c is Disconnected || c is Offline,
        c.grants(capability) ==> c is Connected,
        c matches ConnectionModel::Connected { capabilities, .. } ==> (c.grants(capability)
            <==> capabilities.contains(capability)),
{
}

/// A mirror that opens a stream has the replica under the stream's id and the
/// stream under the pane; a stream the pane had before is replaced. Losing the
/// connection keeps the catalog and drops every stream.
pub proof fn mirrors_follow_their_streams(
    m: MirrorModel,
    pane: Seq<char>,
    stream_id: u32,
    replica: PaneReplica,
    error: Seq<char>,
    other: Seq<char>,
)
    requires
        other != pane,
    ensures
        ({
            let r = m.opened(pane, stream_id, replica);
            &&& r.pane_streams.contains_key(pane) && r.pane_streams[pane] == stream_id
            &&& r.replicas.contains_key(stream_id) && r.replicas[stream_id] == replica
            &&& r.pane_streams.contains_key(other) == m.pane_streams.contains_key(other)
            &&& m.pane_streams.contains_key(pane) && m.pane_streams[pane] != stream_id
                ==> !r.replicas.contains_key(m.pane_streams[pane])
            &&& r.catalog == m.catalog && r.connection == m.connection
        }),
        ({
            let r = m.lost(error);
            &&& r.catalog == m.catalog && r.name == m.name && r.remote_index == m.remote_index
            &&& r.replicas.len() == 0 && r.pane_streams.len() == 0
            &&& r.connection matches ConnectionModel::Offline { last_error, .. } && last_error
                == error
        }),
        ({
            let r = m.cleared();
            &&& r.catalog.panes.len() == 0 && r.catalog.tabs.len() == 0
                && r.catalog.workspaces.len() == 0 && r.catalog.layouts.len() == 0
                && r.catalog.sequence == 0
            &&& r.replicas.len() == 0 && r.pane_streams.len() == 0
            &&& r.connection == m.connection && r.name == m.name
        }),
        m.stream_for_pane(pane) is Some <==> m.pane_streams.contains_key(pane),
{
}

/// The id of a pane is the place of its live slot.
pub proof fn pane_ids_are_places(
    slots: Seq<PaneSlot>,
    remote: usize,
    public: Seq<char>,
    at: int,
)
    requires
        slots.len() <= usize::MAX,
        0 <= at < slots.len(),
        slots[at].live && slots[at].remote == remote && slots[at].public@ == public,
        forall|j: int|
            0 <= j < at ==> !((#[trigger] slots[j]).live && slots[j].remote == remote
                && slots[j].public@ == public),
    ensures
        id_of(slots, remote, public) == at,
        knows(slots, remote, public),
{
    assert(slot_for(remote, public)(slots[at]));
    first_index_is(slots, slot_for(remote, public), at);
}

/// Ids of panes that a mirror still knows stay; all others end. No id is given
/// to another pane.
pub proof fn known_ids_stay(
    slots: Seq<PaneSlot>,
    mirrors: Map<usize, MirrorModel>,
    m: MirrorModel,
    i: int,
)
    requires
        0 <= i < slots.len(),
    ensures
        ({
            let r = retained(slots, mirrors);
            let s = slots[i];
            &&& r.len() == slots.len()
            &&& r[i].remote == s.remote && r[i].public == s.public
            &&& r[i].live <==> s.live && mirrors.contains_key(s.remote)
                && mirrors[s.remote].catalog.has_pane(s.public@)
        }),
        ({
            let r = retained_one(slots, m);
            let s = slots[i];
            &&& r.len() == slots.len()
            &&& r[i].remote == s.remote && r[i].public == s.public
            &&& r[i].live <==> s.live && s.remote == m.remote_index && m.catalog.has_pane(s.public@)
        }),
{
}

/// The focused pane of a tab is the first that is flagged; where none is, the
/// one its layout names; where it has no layout, none.
pub proof fn flags_decide_the_focus(
    panes: Seq<PaneInfo>,
    snapshot: Option<PaneLayoutSnapshot>,
    at: int,
)
    ensures
        0 <= at < panes.len() && panes[at].focused && (forall|j: int|
            0 <= j < at ==> !(#[trigger] panes[j]).focused) ==> focused_public(panes, snapshot)
            == Some(panes[at].pane_id@),
        (forall|j: int| 0 <= j < panes.len() ==> !(#[trigger] panes[j]).focused) ==> focused_public(
            panes,
            snapshot,
        ) == match snapshot {
            Some(s) => Some(s.focused_pane_id@),
            None => None,
        },
{
    if 0 <= at < panes.len() && panes[at].focused && (forall|j: int|
        0 <= j < at ==> !(#[trigger] panes[j]).focused) {
        first_index_is(panes, pane_is_focused(), at);
    }
    if forall|j: int| 0 <= j < panes.len() ==> !(#[trigger] panes[j]).focused {
        first_index_is(panes, pane_is_focused(), panes.len() as int);
    }
}

/// A tab without a layout, or with one that is not of its panes, shows them
/// side by side in catalog order, focused on the flagged one or the first.
pub proof fn loose_tabs_show_every_pane(
    slots: Seq<PaneSlot>,
    remote: usize,
    panes: Seq<PaneInfo>,
    snapshot: PaneLayoutSnapshot,
)
    requires
        panes.len() > 0,
    ensures
        crate::client_state::layout::leaves_of(tab_tree(slots, remote, panes, None)) == pane_ids(
            slots,
            remote,
            panes,
        ),
        snapshot.panes@.len() != panes.len() ==> crate::client_state::layout::leaves_of(
            tab_tree(slots, remote, panes, Some(snapshot)),
        ) == pane_ids(slots, remote, panes),
        (forall|j: int| 0 <= j < panes.len() ==> !(#[trigger] panes[j]).focused) ==> tab_layout(
            slots,
            remote,
            panes,
            None,
        ).focus == id_of(slots, remote, panes[0].pane_id@),
{
    crate::client_state::layout::nesting_keeps_every_pane(pane_ids(slots, remote, panes));
    flags_decide_the_focus(panes, None, 0);
}

/// A layout that is of the tab's panes, as many and each of them, shows them
/// as it exported them, in its order; the tab's first pane is the first of
/// them.
pub proof fn exported_tabs_keep_their_order(
    slots: Seq<PaneSlot>,
    remote: usize,
    panes: Seq<PaneInfo>,
    s: PaneLayoutSnapshot,
)
    requires
        s.panes@.len() == panes.len(),
        forall|i: int|
            0 <= i < s.panes@.len() ==> exists|j: int|
                0 <= j < panes.len() && (#[trigger] panes[j]).pane_id@ == (
                #[trigger] s.panes@[i]).pane_id@,
        tree_of(
            s.splits@,
            Seq::new(s.panes@.len(), |i: int| id_of(slots, remote, s.panes@[i].pane_id@)),
        ) is Some,
    ensures
        ({
            let tree = tab_tree(slots, remote, panes, Some(s));
            let shown = crate::client_state::layout::leaves_of(tree);
            &&& shown.len() == s.panes@.len()
            &&& forall|i: int|
                0 <= i < shown.len() ==> #[trigger] shown[i] == id_of(
                    slots,
                    remote,
                    s.panes@[i].pane_id@,
                )
            &&& crate::client_state::layout::leftmost(tree) == shown[0]
        }),
{
    let leaves = Seq::new(s.panes@.len(), |i: int| id_of(slots, remote, s.panes@[i].pane_id@));
    assert(crate::client_state::compose::leaf_ids(slots, remote, s) =~= leaves);
    assert(crate::client_state::compose::snapshot_fits(s, panes)) by {
        assert forall|i: int| 0 <= i < s.panes@.len() implies crate::seqs::any(
            panes,
            crate::client_state::compose::pane_called((#[trigger] s.panes@[i]).pane_id@),
        ) by {
            let j = choose|j: int|
                0 <= j < panes.len() && (#[trigger] panes[j]).pane_id@ == s.panes@[i].pane_id@;
            assert(crate::client_state::compose::pane_called(s.panes@[i].pane_id@)(panes[j]));
        }
    }
    crate::client_state::layout::grown_trees_take_leaves_in_order(
        s.splits@,
        leaves,
        Seq::empty(),
        s.splits@.len() + 1,
    );
    let tree = tab_tree(slots, remote, panes, Some(s));
    let (node, rest) = crate::client_state::layout::grown(
        s.splits@,
        leaves,
        Seq::empty(),
        s.splits@.len() + 1,
    )->Some_0;
    assert(node == tree);
    assert(rest =~= Seq::<usize>::empty());
    assert(crate::client_state::layout::leaves_of(tree) + rest
        =~= crate::client_state::layout::leaves_of(tree));
    first_leaves_come_first(tree);
}

/// The leftmost pane of a tree is the first of its panes.
pub proof fn first_leaves_come_first(node: Node)
    ensures
        crate::client_state::layout::leaves_of(node).len() > 0,
        crate::client_state::layout::leftmost(node) == crate::client_state::layout::leaves_of(
            node,
        )[0],
    decreases node,
{
    if let Node::Split { first, .. } = node {
        first_leaves_come_first(*first);
    }
}

/// A tab's label is its name unless it is empty or the default for its place.
pub proof fn default_labels_are_no_names(label: Seq<char>, number: nat)
    ensures
        custom_name("tab "@ + decimal(number), number) is None,
        custom_name(Seq::empty(), number) is None,
        label.len() > 0 && label != "tab "@ + decimal(number) ==> custom_name(label, number) == Some(
            label,
        ),
{
}

/// The number behind the last underscore of an id is read off it.
pub proof fn ids_end_in_their_number(head: Seq<char>, n: nat)
    requires
        n <= usize::MAX,
    ensures
        number_in(after_last_underscore(head.push('_') + decimal(n))) == Some(n),
{
    digits_are_behind(head, n, decimal(n).len() as int);
    assert(decimal(n).take(decimal(n).len() as int) =~= decimal(n));
    crate::client_state::compose::numbers_read_back(n);
}

/// A pane's badge is the number that its id ends in, under the pane's own id.
pub proof fn badges_are_the_panes_numbers(
    slots: Seq<PaneSlot>,
    remote: usize,
    panes: Seq<PaneInfo>,
    pane: PaneInfo,
    head: Seq<char>,
    n: nat,
)
    requires
        n <= usize::MAX,
        pane.pane_id@ == head.push('_') + decimal(n),
        panes.contains(pane),
        forall|j: int|
            0 <= j < panes.len() && id_of(slots, remote, (#[trigger] panes[j]).pane_id@) == id_of(
                slots,
                remote,
                pane.pane_id@,
            ) ==> panes[j] == pane,
    ensures
        ({
            let r = pane_numbers(slots, remote, panes);
            let id = id_of(slots, remote, pane.pane_id@);
            r.contains_key(id) && r[id] == n
        }),
    decreases panes.len(),
{
    ids_end_in_their_number(head, n);
    let front = panes.drop_last();
    let last = panes.last();
    assert(panes[panes.len() - 1] == last);
    if last != pane {
        let i = choose|i: int| 0 <= i < panes.len() && panes[i] == pane;
        assert(front[i] == pane);
        assert forall|j: int|
            0 <= j < front.len() && id_of(slots, remote, (#[trigger] front[j]).pane_id@) == id_of(
                slots,
                remote,
                pane.pane_id@,
            ) implies front[j] == pane by {
            assert(front[j] == panes[j]);
        }
        badges_are_the_panes_numbers(slots, remote, front, pane, head, n);
    }
}

proof fn digits_are_behind(head: Seq<char>, n: nat, k: int)
    requires
        0 <= k <= decimal(n).len(),
    ensures
        after_last_underscore(head.push('_') + decimal(n).take(k)) == decimal(n).take(k),
    decreases k,
{
    crate::text_laws::numbers_spell_themselves(n);
    let part = decimal(n).take(k);
    let all = head.push('_') + part;
    if k == 0 {
        assert(all =~= head.push('_'));
        assert(all.last() == '_');
        assert(part =~= Seq::empty());
    } else {
        digits_are_behind(head, n, k - 1);
        assert(all.last() == decimal(n)[k - 1]);
        assert(all.drop_last() =~= head.push('_') + decimal(n).take(k - 1));
        assert(decimal(n).take(k - 1).push(decimal(n)[k - 1]) =~= part);
    }
}

/// What the answer to a hello comes to: a welcome that grants the catalog is a
/// session; a refusal over the version is a dead end with the server's remedy,
/// or else this client's; any other refusal may be tried again.
pub proof fn hello_answers_are_told_apart(v: JsonView, error: JsonView, code: Seq<char>, text: Seq<char>)
    ensures
        v.field("error"@) == Some(error) && error.field("code"@) == Some(JsonView::Text(code))
            && error.field("message"@) == Some(JsonView::Text(text)) && error.field("data"@) is None
            ==> {
            &&& code == "protocol_out_of_window"@ ==> hello_outcome(v) == (
            HelloOutcome::Incompatible { remedy: HelloRemedy::UpgradeClient, message: text })
            &&& code != "protocol_out_of_window"@ ==> hello_outcome(v) == HelloOutcome::Failed(
                "session.hello rejected: "@ + text,
            )
        },
        (error_of(v) matches Some(e) && e.code == "protocol_out_of_window"@ && e.remedy == Some(
            HelloRemedy::UpgradeServer,
        )) ==> (hello_outcome(v) matches HelloOutcome::Incompatible { remedy, .. } && remedy
            == HelloRemedy::UpgradeServer),
        v.field("error"@) is None && welcome_of(v) is Some ==> {
            let w = welcome_of(v)->Some_0;
            if w.capabilities.contains("catalog"@) {
                hello_outcome(v) == HelloOutcome::Welcome(w)
            } else {
                hello_outcome(v) == (HelloOutcome::Incompatible {
                    remedy: HelloRemedy::UpgradeServer,
                    message: "server "@ + w.server_version
                        + " does not offer the catalog capability"@,
                })
            }
        },
        v.field("error"@) is None && welcome_of(v) is None ==> hello_outcome(v) is Failed,
{
}

/// The mirrors of a fleet that starts: one for each remote, disconnected and
/// empty, under its name.
pub proof fn fleets_start_with_fresh_mirrors(descriptors: Seq<RemoteDescriptor>, n: int, i: int)
    requires
        0 <= i < n <= descriptors.len(),
        forall|j: int| i < j < n ==> (#[trigger] descriptors[j]).index != descriptors[i].index,
    ensures
        ({
            let r = fresh_mirrors(descriptors, n);
            let d = descriptors[i];
            &&& r.contains_key(d.index)
            &&& r[d.index].name == d.name@ && r[d.index].remote_index == d.index
            &&& r[d.index].connection is Disconnected
            &&& r[d.index].catalog.panes.len() == 0 && r[d.index].replicas.len() == 0
        }),
    decreases n,
{
    if i < n - 1 {
        fleets_start_with_fresh_mirrors(descriptors, n - 1, i);
        assert(descriptors[n - 1].index != descriptors[i].index);
    }
}

/// The status line stands in for the chips where there are none or they are
/// laid away; a remote is local where its entry has no target.
pub proof fn the_status_line_stands_in(m: LoopModel, remote: usize, at: int)
    ensures
        m.status_line_only() <==> m.descriptors.len() == 0 || m.app.chip_strip_height == 0,
        0 <= at < m.descriptors.len() && m.descriptors[at].index == remote && (forall|j: int|
            0 <= j < at ==> (#[trigger] m.descriptors[j]).index != remote) ==> (m.is_local(remote)
            <==> m.descriptors[at].target is None),
{
    if 0 <= at < m.descriptors.len() && m.descriptors[at].index == remote && (forall|j: int|
        0 <= j < at ==> (#[trigger] m.descriptors[j]).index != remote) {
        first_index_is(m.descriptors, at_index(remote), at);
    }
}

} // verus!
