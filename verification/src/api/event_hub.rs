//! The bounded buffer of server events, and who follows it.
use crate::api::schema::EventEnvelope;
use vstd::prelude::*;

verus! {

/// How many events are retained.
pub const MAX_EVENTS: usize = 512;

/// A bounded buffer of events with contiguous sequence numbers, and the
/// number of sessions that follow the catalog.
pub struct EventHub {
    next_sequence: u64,
    events: Vec<(u64, EventEnvelope)>,
    catalog_clients: usize,
}

/// The mathematical value of a hub: how many events were ever pushed, and the
/// newest of them.
pub struct HubModel {
    pub pushed: nat,
    pub retained: Seq<EventEnvelope>,
    pub catalog_clients: nat,
}

impl HubModel {
    /// One more session follows the catalog.
    pub open spec fn registered(self) -> HubModel {
        HubModel { catalog_clients: self.catalog_clients + 1, ..self }
    }

    /// One session fewer follows the catalog.
    pub open spec fn released(self) -> HubModel {
        HubModel { catalog_clients: (self.catalog_clients - 1) as nat, ..self }
    }

    /// The buffer holds the newest events, as many as it can.
    pub open spec fn wf(self) -> bool {
        self.retained.len() == if self.pushed <= MAX_EVENTS {
            self.pushed
        } else {
            MAX_EVENTS as nat
        }
    }

    /// The sequence of the oldest retained event.
    pub open spec fn oldest(self) -> int {
        self.pushed - self.retained.len() + 1
    }

    /// The event with a sequence that is retained.
    pub open spec fn event(self, sequence: int) -> EventEnvelope {
        self.retained[sequence - self.oldest()]
    }

    pub open spec fn retains(self, sequence: int) -> bool {
        self.oldest() <= sequence <= self.pushed
    }

    /// How many retained events come after a cursor.
    pub open spec fn count_after(self, cursor: int) -> int {
        if cursor >= self.pushed {
            0
        } else if cursor + 1 <= self.oldest() {
            self.retained.len() as int
        } else {
            self.pushed - cursor
        }
    }

    /// Whether an event after the cursor has been dropped.
    pub open spec fn lost_after(self, cursor: int) -> bool {
        self.retained.len() > 0 && self.oldest() > cursor + 1
    }

    /// The hub with one more event; past the bound the oldest goes.
    pub open spec fn with(self, event: EventEnvelope) -> HubModel {
        let all = self.retained.push(event);
        HubModel {
            pushed: self.pushed + 1,
            retained: if all.len() > MAX_EVENTS {
                all.drop_first()
            } else {
                all
            },
            ..self
        }
    }
}

impl EventHub {
    /// Sequences are contiguous up to the newest.
    pub closed spec fn wf(&self) -> bool {
        &&& self@.wf()
        &&& forall|i: int|
            0 <= i < self.events@.len() ==> (#[trigger] self.events@[i]).0 == self.next_sequence
                - self.events@.len() + 1 + i
    }

    /// A sound hub is a sound model.
    pub proof fn wf_of_view(&self)
        requires
            self.wf(),
        ensures
            self@.wf(),
    {
    }

    pub closed spec fn view(&self) -> HubModel {
        HubModel {
            pushed: self.next_sequence as nat,
            retained: self.events@.map_values(|e: (u64, EventEnvelope)| e.1),
            catalog_clients: self.catalog_clients as nat,
        }
    }

    /// An empty hub.
    pub fn new() -> (r: EventHub)
        ensures
            r.wf(),
            r@ == (HubModel { pushed: 0, retained: Seq::empty(), catalog_clients: 0 }),
    {
        let r = EventHub { next_sequence: 0, events: Vec::new(), catalog_clients: 0 };
        assert(r@.retained =~= Seq::empty());
        r
    }

    /// Appends an event under the next sequence. Past the bound the oldest
    /// event is dropped.
    pub fn push(&mut self, event: EventEnvelope)
        requires
            old(self).wf(),
            old(self)@.pushed < u64::MAX,
        ensures
            final(self).wf(),
            final(self)@ == old(self)@.with(event),
    {
        let sequence: u64 = self.next_sequence + 1;
        self.next_sequence = sequence;
        self.events.push((sequence, event));
        if self.events.len() > MAX_EVENTS {
            self.events.remove(0);
        }
        assert(self@.retained =~= old(self)@.with(event).retained);
    }

    /// Events newer than `sequence`, oldest first.
    pub fn events_after(&self, sequence: u64) -> (r: Vec<(u64, &EventEnvelope)>)
        requires
            self.wf(),
        ensures
            follows(self@, sequence, r@),
    {
        self.events_after_with_loss(sequence).0
    }

    /// Events newer than `sequence`, oldest first, and whether the buffer has
    /// dropped events the caller has not seen. A caller that lost events
    /// cannot catch up from the buffer.
    pub fn events_after_with_loss(&self, sequence: u64) -> (r: (Vec<(u64, &EventEnvelope)>, bool))
        requires
            self.wf(),
        ensures
            follows(self@, sequence, r.0@),
            r.1 == self@.lost_after(sequence as int),
    {
        let mut out: Vec<(u64, &EventEnvelope)> = Vec::new();
        let n: usize = self.events.len();
        let lost: bool = n > 0 && self.events[0].0 > sequence.saturating_add(1);
        let ghost first = self@.pushed - self@.count_after(sequence as int) + 1;
        let mut i: usize = 0;
        while i < n
            invariant
                n == self.events@.len(),
                i <= n,
                n <= self.next_sequence,
                forall|k: int|
                    0 <= k < n ==> (#[trigger] self.events@[k]).0 == self.next_sequence - n + 1 + k,
                first == self@.pushed - self@.count_after(sequence as int) + 1,
                out@.len() == if self@.oldest() + i <= first {
                    0
                } else {
                    self@.oldest() + i - first
                },
                forall|k: int|
                    0 <= k < out@.len() ==> (#[trigger] out@[k]).0 == first + k && *out@[k].1
                        == self@.event(first + k),
            decreases n - i,
        {
            let seq: u64 = self.events[i].0;
            if seq > sequence {
                assert(self@.retained[i as int] == self.events@[i as int].1);
                out.push((seq, &self.events[i].1));
            }
            i = i + 1;
        }
        (out, lost)
    }

    /// The sequence of the newest event.
    pub fn current_sequence(&self) -> (r: u64)
        ensures
            r == self@.pushed,
    {
        self.next_sequence
    }

    /// Counts a session that follows the catalog, until its guard is handed
    /// back.
    pub fn register_catalog_client(&mut self) -> (r: CatalogClientGuard)
        requires
            old(self).wf(),
            old(self)@.catalog_clients < usize::MAX,
        ensures
            final(self).wf(),
            final(self)@ == old(self)@.registered(),
    {
        self.catalog_clients = self.catalog_clients + 1;
        CatalogClientGuard { counted: true }
    }

    /// Takes a session's guard back, and counts it no longer.
    pub fn release_catalog_client(&mut self, guard: CatalogClientGuard)
        requires
            old(self).wf(),
            old(self)@.catalog_clients > 0,
        ensures
            final(self).wf(),
            final(self)@ == old(self)@.released(),
    {
        self.catalog_clients = self.catalog_clients - 1;
    }

    /// Number of sessions that follow the catalog.
    pub fn catalog_client_count(&self) -> (r: usize)
        ensures
            r == self@.catalog_clients,
    {
        self.catalog_clients
    }
}

impl Default for EventHub {
    fn default() -> (r: Self)
        ensures
            r.wf(),
            r@ == (HubModel { pushed: 0, retained: Seq::empty(), catalog_clients: 0 }),
    {
        EventHub::new()
    }
}

/// The registration of one session that follows the catalog.
#[derive(Debug)]
pub struct CatalogClientGuard {
    counted: bool,
}

/// What a reader at a cursor gets: every retained event after it, in order,
/// under its sequence.
pub open spec fn follows(h: HubModel, cursor: u64, got: Seq<(u64, &EventEnvelope)>) -> bool {
    let n = h.count_after(cursor as int);
    &&& got.len() == n
    &&& forall|k: int|
        0 <= k < n ==> (#[trigger] got[k]).0 == h.pushed - n + 1 + k && *got[k].1 == h.event(
            h.pushed - n + 1 + k,
        )
}

/// The buffer never holds more than its bound, and always holds the newest
/// event.
pub proof fn the_buffer_is_bounded(h: HubModel, event: EventEnvelope)
    requires
        h.wf(),
    ensures
        h.with(event).wf(),
        h.with(event).retained.len() <= MAX_EVENTS,
        h.with(event).retains(h.with(event).pushed as int),
        h.with(event).event(h.with(event).pushed as int) == event,
{
}

/// A push keeps every other event that is still retained under its sequence.
pub proof fn pushes_keep_sequences(h: HubModel, event: EventEnvelope, sequence: int)
    requires
        h.wf(),
        h.retains(sequence),
        h.with(event).retains(sequence),
    ensures
        h.with(event).event(sequence) == h.event(sequence),
{
}

/// A reader is told of a loss exactly when some event after its cursor is no
/// longer retained; otherwise it gets every event after its cursor.
pub proof fn loss_is_exact(h: HubModel, cursor: u64)
    requires
        h.wf(),
    ensures
        h.lost_after(cursor as int) <==> exists|s: int|
            cursor < s <= h.pushed && !(#[trigger] h.retains(s)),
        !h.lost_after(cursor as int) && cursor <= h.pushed ==> h.count_after(cursor as int)
            == h.pushed - cursor,
{
    if h.lost_after(cursor as int) {
        let s = cursor + 1;
        assert(!h.retains(s));
    }
    if exists|s: int| cursor < s <= h.pushed && !(#[trigger] h.retains(s)) {
        let s = choose|s: int| cursor < s <= h.pushed && !(#[trigger] h.retains(s));
        assert(s < h.oldest());
    }
}

/// An event after a cursor: a reader that was current when it was pushed gets
/// exactly it.
pub proof fn current_readers_get_each_event(h: HubModel, event: EventEnvelope)
    requires
        h.wf(),
    ensures
        h.with(event).count_after(h.pushed as int) == 1,
        !h.with(event).lost_after(h.pushed as int),
        h.with(event).event((h.pushed + 1) as int) == event,
{
}

/// A registration that is handed back leaves the hub as it was, whatever was
/// pushed meanwhile.
pub proof fn releases_undo_registrations(h: HubModel, event: EventEnvelope)
    ensures
        h.registered().released() == h,
        h.registered().with(event).released() == h.with(event),
{
}

} // verus!
