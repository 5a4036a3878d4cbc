//! The table of live connections, owned by the one thread that consumes the
//! event queue, and the step that keeps it in line with that queue.
use crate::ws::{Event, Message, Responder};
use std::collections::HashMap;
use vstd::prelude::*;
use vstd::std_specs::hash::spec_hash_map_iter;
use vstd::std_specs::iter::IteratorSpec;

verus! {

broadcast use vstd::std_specs::hash::group_hash_axioms;

/// The outcome of one delivery attempt of a broadcast.
#[derive(Debug, Clone, Copy, PartialEq, Eq, Structural)]
pub struct Delivery {
    /// The connection the message was handed to.
    pub client_id: u64,
    /// Whether that connection's queue took it. `false` means that the
    /// connection ended in the meantime.
    pub accepted: bool,
}

/// A unicast named a connection that the registry does not hold.
#[derive(Debug, Clone, Copy, PartialEq, Eq, Structural)]
pub struct NotFound {
    pub client_id: u64,
}

/// The connections of a delivery report, in the order of the report.
pub open spec fn recipients(report: Seq<Delivery>) -> Seq<u64> {
    Seq::new(report.len(), |i: int| report[i].client_id)
}

/// Live connections by identifier, each with the handle that reaches it.
pub struct ClientRegistry {
    clients: HashMap<u64, Responder>,
}

impl View for ClientRegistry {
    type V = Map<u64, Responder>;

    closed spec fn view(&self) -> Map<u64, Responder> {
        self.clients@
    }
}

impl ClientRegistry {
    pub fn new() -> (registry: Self)
        ensures
            registry@ == Map::<u64, Responder>::empty(),
    {
        ClientRegistry { clients: HashMap::new() }
    }

    /// Enters a connection. A handle already held under `id` is replaced and returned.
    pub fn insert(&mut self, id: u64, responder: Responder) -> (previous: Option<Responder>)
        ensures
            final(self)@ == old(self)@.insert(id, responder),
            previous == (if old(self)@.contains_key(id) {
                Some(old(self)@[id])
            } else {
                None
            }),
    {
        self.clients.insert(id, responder)
    }

    /// Takes a connection out. An unknown `id` changes nothing.
    pub fn remove(&mut self, id: u64) -> (removed: Option<Responder>)
        ensures
            final(self)@ == old(self)@.remove(id),
            removed == (if old(self)@.contains_key(id) {
                Some(old(self)@[id])
            } else {
                None
            }),
    {
        self.clients.remove(&id)
    }

    pub fn contains(&self, id: u64) -> (held: bool)
        ensures
            held == self@.contains_key(id),
    {
        self.clients.contains_key(&id)
    }

    /// The number of connections held.
    pub fn client_count(&self) -> (count: usize)
        ensures
            count == self@.len(),
    {
        self.clients.len()
    }

    /// Hands `message` to the connection `id`. Fails if and only if the
    /// registry holds no such connection; otherwise reports whether the
    /// connection's queue took the message.
    pub fn send_to(&self, id: u64, message: Message) -> (outcome: Result<bool, NotFound>)
        ensures
            outcome is Err <==> !self@.contains_key(id),
            outcome matches Err(e) ==> e.client_id == id,
    {
        match self.clients.get(&id) {
            Some(responder) => Ok(responder.send(message)),
            None => Err(NotFound { client_id: id }),
        }
    }

    /// Hands a copy of `message` to every connection held, once each, and goes
    /// on whatever the individual outcomes are. The report has one entry for
    /// each attempt.
    pub fn broadcast(&self, message: &Message) -> (report: Vec<Delivery>)
        ensures
            report@.len() == self@.len(),
            recipients(report@).no_duplicates(),
            recipients(report@).to_set() == self@.dom(),
    {
        let mut report: Vec<Delivery> = Vec::new();
        let ghost entries = spec_hash_map_iter(&self.clients).remaining();
        for entry in it: self.clients.iter()
            invariant
                it.seq() == entries,
                report@.len() == it.index(),
                forall|i: int| 0 <= i < report@.len() ==> report@[i].client_id == *entries[i].0,
        {
            let accepted = entry.1.send(message.clone());
            report.push(Delivery { client_id: *entry.0, accepted });
        }
        proof {
            let ids = recipients(report@);
            assert forall|i: int, j: int| 0 <= i < ids.len() && 0 <= j < ids.len() && i != j implies ids[i]
                != ids[j] by {
                if ids[i] == ids[j] {
                    assert(self.clients@[*entries[i].0] == *entries[i].1);
                    assert(self.clients@[*entries[j].0] == *entries[j].1);
                    assert(entries[i] == entries[j]);
                }
            }
            assert forall|id: u64| ids.to_set().contains(id) <==> self@.dom().contains(id) by {
                if ids.to_set().contains(id) {
                    let i = choose|i: int| 0 <= i < ids.len() && ids[i] == id;
                    assert(self.clients@.contains_key(*entries[i].0));
                }
                if self@.dom().contains(id) {
                    assert(self.clients@.contains_key(id));
                    let pair = (&id, &self.clients@[id]);
                    assert(entries.contains(pair));
                    let i = choose|i: int| 0 <= i < entries.len() && entries[i] == pair;
                    assert(ids[i] == id);
                }
            }
            assert(ids.to_set() =~= self@.dom());
        }
        report
    }
}

/// The table after one event: a connect enters its handle, a disconnect
/// takes the connection out, a message leaves the table alone.
pub open spec fn routed(table: Map<u64, Responder>, event: Event) -> Map<u64, Responder> {
    match event {
        Event::Connect(id, responder) => table.insert(id, responder),
        Event::Disconnect(id) => table.remove(id),
        Event::Message(_, _) => table,
    }
}

/// What one event leaves for the application's message handler.
pub open spec fn handed_on(event: Event) -> Option<(u64, Message)> {
    match event {
        Event::Message(id, message) => Some((id, message)),
        _ => None,
    }
}

/// The table after a run of events, applied oldest first.
pub open spec fn routed_all(table: Map<u64, Responder>, events: Seq<Event>) -> Map<u64, Responder>
    decreases events.len(),
{
    if events.len() == 0 {
        table
    } else {
        routed(routed_all(table, events.drop_last()), events.last())
    }
}

/// Whether `events` ends a connection `id`.
pub open spec fn disconnects(events: Seq<Event>, id: u64) -> bool {
    exists|j: int| 0 <= j < events.len() && #[trigger] events[j] == Event::Disconnect(id)
}

/// Whether `id` is live after `events`: it connected, and did not disconnect
/// afterwards.
pub open spec fn live_after(events: Seq<Event>, id: u64) -> bool {
    exists|i: int|
        0 <= i < events.len() && (#[trigger] events[i]) is Connect && events[i].client() == id
            && !disconnects(events.skip(i + 1), id)
}

/// Applies one event of the queue to the registry and returns what is left
/// for the application: the message of a `Message` event, with its sender.
pub fn route_event(registry: &mut ClientRegistry, event: Event) -> (handoff: Option<(u64, Message)>)
    ensures
        final(registry)@ == routed(old(registry)@, event),
        handoff == handed_on(event),
{
    match event {
        Event::Connect(id, responder) => {
            registry.insert(id, responder);
            None
        },
        Event::Disconnect(id) => {
            registry.remove(id);
            None
        },
        Event::Message(id, message) => Some((id, message)),
    }
}

/// What a run of events leaves for the application's message handler: its
/// messages, each with its sender, in the order in which they arrived.
pub open spec fn handed_on_all(events: Seq<Event>) -> Seq<(u64, Message)>
    decreases events.len(),
{
    if events.len() == 0 {
        Seq::empty()
    } else {
        let before = handed_on_all(events.drop_last());
        match handed_on(events.last()) {
            Some(handoff) => before.push(handoff),
            None => before,
        }
    }
}

/// Applies a batch of events of the queue to the registry, oldest first, and
/// returns what is left for the application. After the call the registry
/// holds no connection whose disconnect was in the batch, unless it
/// connected again behind it.
pub fn route_events(registry: &mut ClientRegistry, events: Vec<Event>) -> (handoffs: Vec<
    (u64, Message),
>)
    ensures
        final(registry)@ == routed_all(old(registry)@, events@),
        handoffs@ == handed_on_all(events@),
{
    let mut handoffs: Vec<(u64, Message)> = Vec::new();
    let ghost all = events@;
    let ghost start = registry@;
    for event in it: events
        invariant
            it.seq() == all,
            registry@ == routed_all(start, all.take(it.index())),
            handoffs@ == handed_on_all(all.take(it.index())),
    {
        assert(all.take(it.index() + 1).drop_last() == all.take(it.index()));
        assert(all.take(it.index() + 1).last() == event);
        match route_event(registry, event) {
            Some(handoff) => {
                handoffs.push(handoff);
            },
            None => {},
        }
    }
    assert(all.take(all.len() as int) == all);
    handoffs
}

/// The registry follows the queue: after any run of events, it holds exactly
/// the connections that are live after the run, beside those it held before
/// and that the run does not end. In particular a connection is gone as soon
/// as its disconnect has been routed.
pub proof fn lemma_registry_tracks_live(table: Map<u64, Responder>, events: Seq<Event>, id: u64)
    ensures
        routed_all(table, events).contains_key(id) <==> live_after(events, id) || (
        table.contains_key(id) && !disconnects(events, id)),
    decreases events.len(),
{
    if events.len() > 0 {
        let front = events.drop_last();
        let last = events.last();
        let n = front.len() as int;
        lemma_registry_tracks_live(table, front, id);
        assert forall|i: int| 0 <= i <= n implies (disconnects(events.skip(i), id) <==> disconnects(
            front.skip(i),
            id,
        ) || last == Event::Disconnect(id)) by {
            let a = events.skip(i);
            let b = front.skip(i);
            if disconnects(a, id) {
                let j = choose|j: int| 0 <= j < a.len() && #[trigger] a[j] == Event::Disconnect(id);
                if j < b.len() {
                    assert(b[j] == Event::Disconnect(id));
                }
            }
            if disconnects(b, id) {
                let j = choose|j: int| 0 <= j < b.len() && #[trigger] b[j] == Event::Disconnect(id);
                assert(a[j] == Event::Disconnect(id));
            }
            if last == Event::Disconnect(id) {
                assert(a[a.len() - 1] == Event::Disconnect(id));
            }
        }
        assert(events.skip(0) == events);
        assert(front.skip(0) == front);
        if live_after(front, id) {
            let i = choose|i: int|
                0 <= i < front.len() && (#[trigger] front[i]) is Connect && front[i].client() == id
                    && !disconnects(front.skip(i + 1), id);
            assert(events[i] == front[i]);
        }
        if live_after(events, id) {
            let i = choose|i: int|
                0 <= i < events.len() && (#[trigger] events[i]) is Connect && events[i].client()
                    == id && !disconnects(events.skip(i + 1), id);
            if i < n {
                assert(front[i] == events[i]);
            }
        }
        if last is Connect && last.client() == id {
            assert(events.skip(n + 1).len() == 0);
            assert(events[n] == last);
        }
    }
}

} // verus!
