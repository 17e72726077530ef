//! Reports vending machines that appear on the map.
use crate::events::{ids_of_kind, Marker, MarkerKind, RustEvent};
use crate::monitors::appearance::{appearance_events, AppearanceWatch, Watched};
use vstd::prelude::*;

verus! {

/// The events for the vending-machine markers among `markers` whose ids are not
/// in `known`, one per such marker, in the order of `markers`.
pub open spec fn vending_events(markers: Seq<Marker>, known: Set<u32>) -> Seq<RustEvent> {
    appearance_events(Watched::VendingMachines, markers, known)
}

/// The abstract state of a vending monitor: the vending-machine ids seen at the
/// previous tick, and whether the next tick is the first.
pub struct VendingMonitorView {
    pub known: Set<u32>,
    pub first_tick: bool,
}

/// Reports vending machines that were not on the map at the previous tick.
/// The first tick only records the vending machines already present.
#[derive(Debug)]
pub struct VendingMonitor {
    watch: AppearanceWatch,
}

impl View for VendingMonitor {
    type V = VendingMonitorView;

    closed spec fn view(&self) -> VendingMonitorView {
        VendingMonitorView { known: self.watch@.known, first_tick: self.watch@.first_tick }
    }
}

impl VendingMonitor {
    /// A monitor that has seen no tick yet.
    pub fn new() -> (r: VendingMonitor)
        ensures
            r@.known == Set::<u32>::empty(),
            r@.first_tick,
    {
        VendingMonitor { watch: AppearanceWatch::new(true) }
    }

    /// Processes one snapshot of the map markers and returns the events it
    /// raises, in order.
    pub fn on_tick(&mut self, markers: &[Marker]) -> (events: Vec<RustEvent>)
        ensures
            final(self)@.known == ids_of_kind(markers@, MarkerKind::VendingMachine),
            !final(self)@.first_tick,
            events@ == (if old(self)@.first_tick {
                Seq::<RustEvent>::empty()
            } else {
                vending_events(markers@, old(self)@.known)
            }),
    {
        self.watch.on_tick(Watched::VendingMachines, markers)
    }
}

impl Default for VendingMonitor {
    /// The derived default of the monitor: no known vending machines, and the
    /// first-tick flag cleared, so that the very first tick already reports
    /// every vending machine on the map.
    fn default() -> (r: VendingMonitor)
        ensures
            r@.known == Set::<u32>::empty(),
            !r@.first_tick,
    {
        VendingMonitor { watch: AppearanceWatch::new(false) }
    }
}

} // verus!
