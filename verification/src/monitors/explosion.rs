//! Reports explosion markers that appear on the map.
use crate::events::{ids_of_kind, Marker, MarkerKind, RustEvent};
use crate::monitors::appearance::{appearance_events, AppearanceWatch, Watched};
use vstd::prelude::*;

verus! {

/// The events for the explosion markers among `markers` whose ids are not
/// in `known`, one per such marker, in the order of `markers`.
pub open spec fn explosion_events(markers: Seq<Marker>, known: Set<u32>) -> Seq<RustEvent> {
    appearance_events(Watched::Explosions, markers, known)
}

/// The abstract state of an explosion monitor: the explosion ids seen at the
/// previous tick, and whether the next tick is the first.
pub struct ExplosionMonitorView {
    pub known: Set<u32>,
    pub first_tick: bool,
}

/// Reports explosions that were not on the map at the previous tick. The
/// first tick only records the explosions already present.
#[derive(Debug)]
pub struct ExplosionMonitor {
    watch: AppearanceWatch,
}

impl View for ExplosionMonitor {
    type V = ExplosionMonitorView;

    closed spec fn view(&self) -> ExplosionMonitorView {
        ExplosionMonitorView { known: self.watch@.known, first_tick: self.watch@.first_tick }
    }
}

impl ExplosionMonitor {
    /// A monitor that has seen no tick yet.
    pub fn new() -> (r: ExplosionMonitor)
        ensures
            r@.known == Set::<u32>::empty(),
            r@.first_tick,
    {
        ExplosionMonitor { watch: AppearanceWatch::new(true) }
    }

    /// Processes one snapshot of the map markers and returns the events it
    /// raises, in order.
    pub fn on_tick(&mut self, markers: &[Marker]) -> (events: Vec<RustEvent>)
        ensures
            final(self)@.known == ids_of_kind(markers@, MarkerKind::Explosion),
            !final(self)@.first_tick,
            events@ == (if old(self)@.first_tick {
                Seq::<RustEvent>::empty()
            } else {
                explosion_events(markers@, old(self)@.known)
            }),
    {
        self.watch.on_tick(Watched::Explosions, markers)
    }
}

impl Default for ExplosionMonitor {
    /// The derived default of the monitor: no known explosions, and the
    /// first-tick flag cleared, so that the very first tick already reports
    /// every explosion on the map.
    fn default() -> (r: ExplosionMonitor)
        ensures
            r@.known == Set::<u32>::empty(),
            !r@.first_tick,
    {
        ExplosionMonitor { watch: AppearanceWatch::new(false) }
    }
}

} // verus!
