//! The two ends of the event queue, held against each other: what the
//! connections report on one side, and what the registry makes of it on the
//! other.
use crate::actor::{
    emission_of, hub_reports, lemma_hub_lifecycle, phase_of, ActorInput, Emission,
};
use crate::registry::{disconnects, lemma_registry_tracks_live, live_after, routed_all};
use crate::ws::{Event, Responder};
use vstd::prelude::*;

verus! {

/// Whether `events` are the events by which `reports` travel through the
/// queue: one event for each report, in the same order, each with the
/// identifier of its connection.
pub open spec fn carries(events: Seq<Event>, reports: Seq<(u64, Emission)>) -> bool {
    &&& events.len() == reports.len()
    &&& forall|i: int|
        0 <= i < events.len() ==> (#[trigger] events[i]).client() == reports[i].0 && emission_of(
            events[i],
        ) == reports[i].1
}

/// The registry holds the open connections. Whatever happens on however many
/// connections, and however their reports interleave in the queue: once the
/// registry has been taken through the queue, it holds a connection exactly
/// if that connection is open. It holds none that has ended and none that
/// never finished its upgrade.
pub proof fn lemma_registry_holds_the_open_connections(
    tagged: Seq<(u64, ActorInput)>,
    events: Seq<Event>,
    id: u64,
)
    requires
        carries(events, hub_reports(tagged)),
    ensures
        routed_all(Map::<u64, Responder>::empty(), events).contains_key(id) <==> phase_of(
            tagged,
            id,
        ) is Open,
{
    let reports = hub_reports(tagged);
    lemma_hub_lifecycle(tagged, id);
    lemma_registry_tracks_live(Map::<u64, Responder>::empty(), events, id);
    if phase_of(tagged, id) is Open {
        let c = choose|c: int|
            0 <= c < reports.len() && #[trigger] reports[c] == (id, Emission::Connect);
        assert(events[c] is Connect && events[c].client() == id);
        let rest = events.skip(c + 1);
        if disconnects(rest, id) {
            let j = choose|j: int| 0 <= j < rest.len() && #[trigger] rest[j] == Event::Disconnect(id);
            assert(events[c + 1 + j] == Event::Disconnect(id));
            assert(reports[c + 1 + j] == (id, Emission::Disconnect));
        }
        assert(live_after(events, id));
    }
    if live_after(events, id) {
        let i = choose|i: int|
            0 <= i < events.len() && (#[trigger] events[i]) is Connect && events[i].client() == id
                && !disconnects(events.skip(i + 1), id);
        assert(reports[i] == (id, Emission::Connect));
        if phase_of(tagged, id) is Closed {
            let d = choose|d: int|
                0 <= d < reports.len() && #[trigger] reports[d] == (id, Emission::Disconnect);
            assert(events[d] == Event::Disconnect(id));
            let c = choose|c: int| 0 <= c < d && #[trigger] reports[c] == (id, Emission::Connect);
            if c < i {
                assert(reports[i] != (id, Emission::Connect));
            } else if i < c {
                assert(reports[c] != (id, Emission::Connect));
            }
            assert(events.skip(i + 1)[d - i - 1] == Event::Disconnect(id));
        }
    }
}

} // verus!
