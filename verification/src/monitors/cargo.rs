//! Tracks the cargo ship: reports when it appears on the map and when it
//! leaves, with how long it was out.
use crate::clock::{elapsed_ns, Clock};
use crate::events::{contains_kind, has_kind, Marker, MarkerKind, RustEvent};
use vstd::prelude::*;

verus! {

/// Where the cargo ship stands, with times in nanoseconds on the monitor's
/// clock.
#[derive(Clone, Copy, Debug, PartialEq, Eq, Structural)]
pub enum CargoPhase {
    /// The ship is not on the map.
    Waiting,
    /// The ship is on the map: it appeared at `spawned_at` and was last seen
    /// at `last_seen_at`.
    Active { spawned_at: u64, last_seen_at: u64 },
}

/// The phase after a tick at `now` that did or did not see the ship.
pub open spec fn cargo_next(phase: CargoPhase, present: bool, now: u64) -> CargoPhase {
    match phase {
        CargoPhase::Waiting => if present {
            CargoPhase::Active { spawned_at: now, last_seen_at: now }
        } else {
            CargoPhase::Waiting
        },
        CargoPhase::Active { spawned_at, last_seen_at } => if present {
            CargoPhase::Active { spawned_at, last_seen_at: now }
        } else {
            CargoPhase::Waiting
        },
    }
}

/// The events of a tick at `now` that did or did not see the ship.
pub open spec fn cargo_events(phase: CargoPhase, present: bool, now: u64) -> Seq<RustEvent> {
    match phase {
        CargoPhase::Waiting => if present {
            seq![RustEvent::CargoSpawned]
        } else {
            seq![]
        },
        CargoPhase::Active { spawned_at, last_seen_at } => if present {
            seq![]
        } else {
            seq![RustEvent::CargoDespawned { was_out_for_ns: elapsed_ns(spawned_at, now) }]
        },
    }
}

/// Reports the cargo ship's arrivals and departures.
#[derive(Debug)]
pub struct CargoMonitor {
    phase: CargoPhase,
    clock: Clock,
}

impl View for CargoMonitor {
    type V = CargoPhase;

    closed spec fn view(&self) -> CargoPhase {
        self.phase
    }
}

impl CargoMonitor {
    /// The last reading of the monitor's clock.
    pub closed spec fn clock_reading(&self) -> u64 {
        self.clock@
    }

    /// A monitor, with its own clock, that has not seen the ship.
    pub fn new() -> (r: CargoMonitor)
        ensures
            r@ == CargoPhase::Waiting,
            r.clock_reading() == 0,
    {
        CargoMonitor { phase: CargoPhase::Waiting, clock: Clock::start() }
    }

    /// Processes one snapshot of the map markers taken at `now_ns`
    /// nanoseconds on the monitor's clock and returns the events it raises.
    pub fn on_tick_at(&mut self, markers: &[Marker], now_ns: u64) -> (events: Vec<RustEvent>)
        ensures
            final(self)@ == cargo_next(
                old(self)@,
                has_kind(markers@, MarkerKind::CargoShip),
                now_ns,
            ),
            events@ == cargo_events(old(self)@, has_kind(markers@, MarkerKind::CargoShip), now_ns),
            final(self).clock_reading() == old(self).clock_reading(),
    {
        let present = contains_kind(markers, MarkerKind::CargoShip);
        let mut events: Vec<RustEvent> = Vec::new();
        match self.phase {
            CargoPhase::Waiting => {
                if present {
                    self.phase = CargoPhase::Active { spawned_at: now_ns, last_seen_at: now_ns };
                    events.push(RustEvent::CargoSpawned);
                }
            },
            CargoPhase::Active { spawned_at, last_seen_at: _ } => {
                if present {
                    self.phase = CargoPhase::Active { spawned_at, last_seen_at: now_ns };
                } else {
                    let was_out_for_ns: u64 = if now_ns > spawned_at {
                        now_ns - spawned_at
                    } else {
                        0
                    };
                    events.push(RustEvent::CargoDespawned { was_out_for_ns });
                    self.phase = CargoPhase::Waiting;
                }
            },
        }
        proof {
            assert(events@ =~= cargo_events(old(self)@, present, now_ns));
        }
        events
    }

    /// Processes one snapshot of the map markers at the current time on the
    /// monitor's clock, whose reading is no earlier than the previous one;
    /// the step is the one `on_tick_at` takes at that reading.
    pub fn on_tick(&mut self, markers: &[Marker]) -> (events: Vec<RustEvent>)
        ensures
            exists|now_ns: u64|
                {
                    &&& now_ns >= old(self).clock_reading()
                    &&& final(self).clock_reading() == now_ns
                    &&& final(self)@ == #[trigger] cargo_next(
                        old(self)@,
                        has_kind(markers@, MarkerKind::CargoShip),
                        now_ns,
                    )
                    &&& events@ == cargo_events(
                        old(self)@,
                        has_kind(markers@, MarkerKind::CargoShip),
                        now_ns,
                    )
                },
    {
        let now_ns = self.clock.now_ns();
        assert(self@ == old(self)@);
        self.on_tick_at(markers, now_ns)
    }
}

impl Default for CargoMonitor {
    fn default() -> (r: CargoMonitor)
        ensures
            r@ == CargoPhase::Waiting,
            r.clock_reading() == 0,
    {
        CargoMonitor::new()
    }
}

/// The phase and all events after a run of ticks, each given as whether it
/// saw the ship and when it was taken.
pub open spec fn cargo_run(phase: CargoPhase, ticks: Seq<(bool, u64)>) -> (CargoPhase, Seq<RustEvent>)
    decreases ticks.len(),
{
    if ticks.len() == 0 {
        (phase, seq![])
    } else {
        let (before, events) = cargo_run(phase, ticks.drop_last());
        let (present, now) = ticks.last();
        (cargo_next(before, present, now), events + cargo_events(before, present, now))
    }
}

/// Starting with the ship away, arrivals and departures alternate, starting
/// with an arrival, and the ship is out exactly when the last event was an
/// arrival.
pub proof fn lemma_cargo_events_alternate(ticks: Seq<(bool, u64)>)
    ensures
        ({
            let (phase, events) = cargo_run(CargoPhase::Waiting, ticks);
            &&& forall|k: int|
                0 <= k < events.len() ==> (#[trigger] events[k] == RustEvent::CargoSpawned <==> k
                    % 2 == 0)
            &&& forall|k: int| 0 <= k < events.len() ==> (#[trigger] events[k] is CargoSpawned || events[k] is CargoDespawned)
            &&& (phase is Active <==> events.len() % 2 == 1)
        }),
    decreases ticks.len(),
{
    if ticks.len() > 0 {
        lemma_cargo_events_alternate(ticks.drop_last());
        let (before, earlier) = cargo_run(CargoPhase::Waiting, ticks.drop_last());
        let (present, now) = ticks.last();
        let added = cargo_events(before, present, now);
        let events = earlier + added;
        assert forall|k: int| 0 <= k < events.len() implies (#[trigger] events[k]
            == RustEvent::CargoSpawned <==> k % 2 == 0) && (events[k] is CargoSpawned
            || events[k] is CargoDespawned) by {
            if k < earlier.len() {
                assert(events[k] == earlier[k]);
            } else {
                assert(events[k] == added[k - earlier.len()]);
            }
        }
    }
}

/// When the ship leaves, the reported time out is the time from the tick
/// that saw it arrive to the tick that saw it gone.
pub proof fn lemma_despawn_reports_time_out(spawned_at: u64, last_seen_at: u64, now: u64)
    requires
        spawned_at <= now,
    ensures
        cargo_events(CargoPhase::Active { spawned_at, last_seen_at }, false, now)
            == seq![RustEvent::CargoDespawned { was_out_for_ns: (now - spawned_at) as u64 }],
{
}

/// A ship marker anywhere in the snapshot counts: a waiting monitor reports
/// the arrival, and an active one reports no departure.
pub proof fn lemma_ship_seen_anywhere(markers: Seq<Marker>, i: int, phase: CargoPhase, now: u64)
    requires
        0 <= i < markers.len(),
        markers[i].kind == MarkerKind::CargoShip,
    ensures
        phase == CargoPhase::Waiting ==> cargo_events(
            phase,
            has_kind(markers, MarkerKind::CargoShip),
            now,
        ) == seq![RustEvent::CargoSpawned],
        phase is Active ==> cargo_events(
            phase,
            has_kind(markers, MarkerKind::CargoShip),
            now,
        ) == Seq::<RustEvent>::empty(),
        phase is Active ==> cargo_next(phase, has_kind(markers, MarkerKind::CargoShip), now)
            is Active,
{
    assert(has_kind(markers, MarkerKind::CargoShip));
}

/// With no ship marker in the snapshot, an active monitor reports the
/// departure and a waiting one stays silent.
pub proof fn lemma_no_ship(markers: Seq<Marker>, phase: CargoPhase, now: u64)
    requires
        forall|i: int| 0 <= i < markers.len() ==> markers[i].kind != MarkerKind::CargoShip,
    ensures
        phase == CargoPhase::Waiting ==> cargo_events(
            phase,
            has_kind(markers, MarkerKind::CargoShip),
            now,
        ) == Seq::<RustEvent>::empty(),
        phase is Active ==> cargo_events(phase, has_kind(markers, MarkerKind::CargoShip), now).len()
            == 1 && cargo_events(phase, has_kind(markers, MarkerKind::CargoShip), now)[0] is CargoDespawned,
        cargo_next(phase, has_kind(markers, MarkerKind::CargoShip), now) == CargoPhase::Waiting,
{
    assert(!has_kind(markers, MarkerKind::CargoShip));
}

/// The ship's arrival is dated by the tick that first sees it; while it
/// stays, each tick updates only when it was last seen; once gone, the
/// monitor waits again.
pub proof fn lemma_cargo_phases(phase: CargoPhase, present: bool, now: u64)
    ensures
        phase == CargoPhase::Waiting && present ==> cargo_next(phase, present, now)
            == (CargoPhase::Active { spawned_at: now, last_seen_at: now }),
        phase == CargoPhase::Waiting && !present ==> cargo_next(phase, present, now)
            == CargoPhase::Waiting && cargo_events(phase, present, now).len() == 0,
        phase is Active && present ==> cargo_next(phase, present, now) == (CargoPhase::Active {
            spawned_at: phase->spawned_at,
            last_seen_at: now,
        }),
        phase is Active && !present ==> cargo_next(phase, present, now) == CargoPhase::Waiting,
{
}

} // verus!
