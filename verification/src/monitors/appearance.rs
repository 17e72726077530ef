//! Watching the map for markers of one kind that appear between ticks.
//!
//! The first tick only records the ids present. Each later tick reports,
//! in order, every marker of the watched kind whose id was not present at
//! the previous tick, then records the ids now present.
use crate::events::{collect_ids_of_kind, ids_of_kind, Marker, MarkerKind, RustEvent};
use std::collections::HashSet;
use vstd::prelude::*;

verus! {

broadcast use vstd::std_specs::hash::group_hash_axioms;

/// The kinds of marker whose appearance is reported.
#[derive(Clone, Copy, Debug, PartialEq, Eq, Structural)]
pub enum Watched {
    Explosions,
    VendingMachines,
}

/// The marker kind that `w` watches.
pub open spec fn watched_kind(w: Watched) -> MarkerKind {
    match w {
        Watched::Explosions => MarkerKind::Explosion,
        Watched::VendingMachines => MarkerKind::VendingMachine,
    }
}

/// The event that reports the appearance of `m`.
pub open spec fn appearance_event(w: Watched, m: Marker) -> RustEvent {
    match w {
        Watched::Explosions => RustEvent::ExplosionOccurred { position: m.position },
        Watched::VendingMachines => RustEvent::VendingMachineNew {
            position: m.position,
            id: m.id,
        },
    }
}

/// The events for the markers of the watched kind among `markers` whose ids
/// are not in `known`, one per such marker, in the order of `markers`.
pub open spec fn appearance_events(w: Watched, markers: Seq<Marker>, known: Set<u32>) -> Seq<
    RustEvent,
>
    decreases markers.len(),
{
    if markers.len() == 0 {
        seq![]
    } else {
        let earlier = appearance_events(w, markers.drop_last(), known);
        let m = markers.last();
        if m.kind == watched_kind(w) && !known.contains(m.id) {
            earlier.push(appearance_event(w, m))
        } else {
            earlier
        }
    }
}

/// The kind of marker watched.
fn kind_of(w: Watched) -> (k: MarkerKind)
    ensures
        k == watched_kind(w),
{
    match w {
        Watched::Explosions => MarkerKind::Explosion,
        Watched::VendingMachines => MarkerKind::VendingMachine,
    }
}

/// The event that reports the appearance of `m`.
fn event_for(w: Watched, m: Marker) -> (e: RustEvent)
    ensures
        e == appearance_event(w, m),
{
    match w {
        Watched::Explosions => RustEvent::ExplosionOccurred { position: m.position },
        Watched::VendingMachines => RustEvent::VendingMachineNew { position: m.position, id: m.id },
    }
}

/// The abstract state of a watch: the ids of the watched kind seen at the
/// previous tick, and whether the next tick is the first.
pub struct AppearanceView {
    pub known: Set<u32>,
    pub first_tick: bool,
}

/// Reports markers of one kind that appear on the map; the kind is given
/// at each tick.
#[derive(Debug)]
pub struct AppearanceWatch {
    known: HashSet<u32>,
    first_tick: bool,
}

impl View for AppearanceWatch {
    type V = AppearanceView;

    closed spec fn view(&self) -> AppearanceView {
        AppearanceView { known: self.known@, first_tick: self.first_tick }
    }
}

impl AppearanceWatch {
    /// A watch that knows no ids and treats its next tick as the first or
    /// not, as `first_tick` says.
    pub fn new(first_tick: bool) -> (r: AppearanceWatch)
        ensures
            r@.known == Set::<u32>::empty(),
            r@.first_tick == first_tick,
    {
        AppearanceWatch { known: HashSet::new(), first_tick }
    }

    /// Processes one snapshot of the map markers, watching for markers of
    /// `watched`, and returns the events it raises, in order.
    pub fn on_tick(&mut self, watched: Watched, markers: &[Marker]) -> (events: Vec<RustEvent>)
        ensures
            final(self)@.known == ids_of_kind(markers@, watched_kind(watched)),
            !final(self)@.first_tick,
            events@ == (if old(self)@.first_tick {
                Seq::<RustEvent>::empty()
            } else {
                appearance_events(watched, markers@, old(self)@.known)
            }),
    {
        let kind = kind_of(watched);
        let current = collect_ids_of_kind(markers, kind);
        let mut events: Vec<RustEvent> = Vec::new();
        if self.first_tick {
            self.known = current;
            self.first_tick = false;
            return events;
        }
        let mut i: usize = 0;
        while i < markers.len()
            invariant
                i <= markers@.len(),
                kind == watched_kind(watched),
                events@ == appearance_events(watched, markers@.take(i as int), self.known@),
            decreases markers@.len() - i,
        {
            let m = markers[i];
            proof {
                assert(markers@.take(i + 1).drop_last() =~= markers@.take(i as int));
            }
            if m.kind == kind && !self.known.contains(&m.id) {
                events.push(event_for(watched, m));
            }
            i = i + 1;
        }
        proof {
            assert(markers@.take(markers@.len() as int) =~= markers@);
        }
        self.known = current;
        events
    }
}

/// If every marker of the watched kind among `markers` is already known, no
/// event is raised.
pub proof fn lemma_known_markers_silent(w: Watched, markers: Seq<Marker>, known: Set<u32>)
    requires
        forall|i: int|
            0 <= i < markers.len() && #[trigger] markers[i].kind == watched_kind(w)
                ==> known.contains(markers[i].id),
    ensures
        appearance_events(w, markers, known) == Seq::<RustEvent>::empty(),
    decreases markers.len(),
{
    if markers.len() > 0 {
        let rest = markers.drop_last();
        assert forall|i: int|
            0 <= i < rest.len() && #[trigger] rest[i].kind == watched_kind(w) implies known.contains(
            rest[i].id,
        ) by {
            assert(rest[i] == markers[i]);
        }
        lemma_known_markers_silent(w, rest, known);
        assert(markers.last() == markers[markers.len() - 1]);
    }
}

/// A map that does not change between two ticks raises no event at the
/// second tick.
pub proof fn lemma_steady_map_silent(w: Watched, markers: Seq<Marker>)
    ensures
        appearance_events(w, markers, ids_of_kind(markers, watched_kind(w)))
            == Seq::<RustEvent>::empty(),
{
    let known = ids_of_kind(markers, watched_kind(w));
    assert forall|i: int|
        0 <= i < markers.len() && #[trigger] markers[i].kind == watched_kind(w) implies known.contains(
        markers[i].id,
    ) by {}
    lemma_known_markers_silent(w, markers, known);
}

/// Every event raised reports a marker of the watched kind whose id was not
/// known.
pub proof fn lemma_events_are_new(w: Watched, markers: Seq<Marker>, known: Set<u32>, k: int)
    requires
        0 <= k < appearance_events(w, markers, known).len(),
    ensures
        exists|i: int|
            0 <= i < markers.len() && #[trigger] markers[i].kind == watched_kind(w)
                && !known.contains(markers[i].id) && appearance_events(w, markers, known)[k]
                == appearance_event(w, markers[i]),
    decreases markers.len(),
{
    let rest = markers.drop_last();
    let earlier = appearance_events(w, rest, known);
    if k < earlier.len() {
        lemma_events_are_new(w, rest, known, k);
        let i = choose|i: int|
            0 <= i < rest.len() && #[trigger] rest[i].kind == watched_kind(w) && !known.contains(
                rest[i].id,
            ) && earlier[k] == appearance_event(w, rest[i]);
        assert(markers[i] == rest[i]);
    } else {
        assert(markers[markers.len() - 1] == markers.last());
    }
}

/// The events of a tick are exactly one event per marker of the watched kind
/// whose id was not known, in the order of the markers: the new markers,
/// filtered from the snapshot, each turned into its event.
pub proof fn lemma_events_are_the_new_markers(w: Watched, markers: Seq<Marker>, known: Set<u32>)
    ensures
        appearance_events(w, markers, known) == markers.filter(
            |m: Marker| m.kind == watched_kind(w) && !known.contains(m.id),
        ).map_values(|m: Marker| appearance_event(w, m)),
    decreases markers.len(),
{
    let pred = |m: Marker| m.kind == watched_kind(w) && !known.contains(m.id);
    let f = |m: Marker| appearance_event(w, m);
    reveal_with_fuel(Seq::<Marker>::filter, 1);
    if markers.len() > 0 {
        let rest = markers.drop_last();
        lemma_events_are_the_new_markers(w, rest, known);
        let sub = rest.filter(pred);
        assert(markers.filter(pred) == (if pred(markers.last()) {
            sub.push(markers.last())
        } else {
            sub
        }));
        if pred(markers.last()) {
            assert(sub.push(markers.last()).map_values(f) =~= sub.map_values(f).push(
                f(markers.last()),
            ));
        }
    } else {
        assert(markers.filter(pred) =~= Seq::<Marker>::empty());
        assert(markers.filter(pred).map_values(f) =~= Seq::<RustEvent>::empty());
    }
}

/// Every marker of the watched kind whose id was not known is reported,
/// wherever it stands among the markers.
pub proof fn lemma_every_new_marker_reported(
    w: Watched,
    markers: Seq<Marker>,
    known: Set<u32>,
    i: int,
)
    requires
        0 <= i < markers.len(),
        markers[i].kind == watched_kind(w),
        !known.contains(markers[i].id),
    ensures
        appearance_events(w, markers, known).contains(appearance_event(w, markers[i])),
{
    let pred = |m: Marker| m.kind == watched_kind(w) && !known.contains(m.id);
    let f = |m: Marker| appearance_event(w, m);
    lemma_events_are_the_new_markers(w, markers, known);
    markers.lemma_filter_contains(pred, i);
    let filtered = markers.filter(pred);
    let k = choose|k: int| 0 <= k < filtered.len() && filtered[k] == markers[i];
    assert(filtered.map_values(f)[k] == f(markers[i]));
}

/// The number of events of a tick is the number of markers of the watched
/// kind whose ids were not known.
pub proof fn lemma_event_count(w: Watched, markers: Seq<Marker>, known: Set<u32>)
    ensures
        appearance_events(w, markers, known).len() == markers.filter(
            |m: Marker| m.kind == watched_kind(w) && !known.contains(m.id),
        ).len(),
{
    lemma_events_are_the_new_markers(w, markers, known);
}

/// Explosions are reported by their position; vending machines by their
/// position and id. Each watch looks at markers of its own kind.
pub proof fn lemma_appearance_reports(m: Marker)
    ensures
        watched_kind(Watched::Explosions) == MarkerKind::Explosion,
        watched_kind(Watched::VendingMachines) == MarkerKind::VendingMachine,
        appearance_event(Watched::Explosions, m) == (RustEvent::ExplosionOccurred {
            position: m.position,
        }),
        appearance_event(Watched::VendingMachines, m) == (RustEvent::VendingMachineNew {
            position: m.position,
            id: m.id,
        }),
{
}

} // verus!
