//! Map markers, camera ray entities, and the events that monitors derive
//! from them.
//!
//! Map coordinates are single-precision floats on the wire. The monitors
//! never compute with them, they only carry them into events, so they are
//! kept here as their IEEE-754 bit patterns (`f32::to_bits`), unchanged.
use std::collections::HashSet;
use vstd::prelude::*;

verus! {

broadcast use vstd::std_specs::hash::group_hash_axioms;

/// A position on the map, as the bit patterns of its two `f32` coordinates.
#[derive(Clone, Copy, Debug, PartialEq, Eq, Structural)]
pub struct Coord {
    pub x_bits: u32,
    pub y_bits: u32,
}

/// The kind of a map marker.
#[derive(Clone, Copy, Debug, PartialEq, Eq, Structural)]
pub enum MarkerKind {
    Undefined,
    Player,
    Explosion,
    VendingMachine,
    Ch47,
    CargoShip,
    Crate,
    GenericRadius,
    PatrolHelicopter,
    TravellingVendor,
}

/// A map marker: what the monitors read of one entry of a map-markers
/// response.
#[derive(Clone, Copy, Debug, PartialEq, Eq, Structural)]
pub struct Marker {
    pub id: u32,
    pub kind: MarkerKind,
    pub position: Coord,
}

/// The kind of an entity hit by a camera ray.
#[derive(Clone, Copy, Debug, PartialEq, Eq, Structural)]
pub enum EntityKind {
    Tree,
    Player,
    Other,
}

/// An entity seen through a camera: what the camera monitor reads of one
/// entry of a camera-rays message.
#[derive(Clone, Debug, PartialEq, Eq)]
pub struct RayEntity {
    pub entity_id: u32,
    pub kind: EntityKind,
    pub name: Option<String>,
}

/// An event raised by a monitor.
#[derive(Clone, Debug, PartialEq, Eq)]
pub enum RustEvent {
    /// The cargo ship appeared on the map.
    CargoSpawned,
    /// The cargo ship left the map, after being out for this many
    /// nanoseconds.
    CargoDespawned { was_out_for_ns: u64 },
    /// An explosion marker that was not on the map at the previous tick.
    ExplosionOccurred { position: Coord },
    /// A vending machine that was not on the map at the previous tick.
    VendingMachineNew { position: Coord, id: u32 },
    /// New players came into a camera's view.
    CameraMotion { camera_id: String, player_count: usize, names: Vec<String> },
}

/// Whether some marker among `markers` is of `kind`.
pub open spec fn has_kind(markers: Seq<Marker>, kind: MarkerKind) -> bool {
    exists|i: int| 0 <= i < markers.len() && #[trigger] markers[i].kind == kind
}

/// Tells whether some marker among `markers` is of `kind`.
pub fn contains_kind(markers: &[Marker], kind: MarkerKind) -> (found: bool)
    ensures
        found == has_kind(markers@, kind),
{
    let mut i: usize = 0;
    while i < markers.len()
        invariant
            i <= markers@.len(),
            forall|j: int| 0 <= j < i ==> #[trigger] markers@[j].kind != kind,
        decreases markers@.len() - i,
    {
        if markers[i].kind == kind {
            return true;
        }
        i = i + 1;
    }
    false
}

/// The ids of the markers of `kind` among `markers`.
pub open spec fn ids_of_kind(markers: Seq<Marker>, kind: MarkerKind) -> Set<u32> {
    Set::new(|id: u32| exists|i: int| 0 <= i < markers.len() && #[trigger] markers[i].kind == kind && markers[i].id == id)
}

/// Collects the ids of the markers of `kind` among `markers`.
pub fn collect_ids_of_kind(markers: &[Marker], kind: MarkerKind) -> (ids: HashSet<u32>)
    ensures
        ids@ == ids_of_kind(markers@, kind),
{
    let mut ids: HashSet<u32> = HashSet::new();
    let mut i: usize = 0;
    while i < markers.len()
        invariant
            i <= markers@.len(),
            ids@ == ids_of_kind(markers@.take(i as int), kind),
        decreases markers@.len() - i,
    {
        let m = markers[i];
        if m.kind == kind {
            ids.insert(m.id);
        }
        proof {
            let prefix = markers@.take(i as int);
            let next = markers@.take(i + 1);
            assert forall|id: u32| ids@.contains(id) == ids_of_kind(next, kind).contains(id) by {
                if ids_of_kind(next, kind).contains(id) {
                    let j = choose|j: int| 0 <= j < next.len() && #[trigger] next[j].kind == kind && next[j].id == id;
                    if j < i {
                        assert(prefix[j] == next[j]);
                    }
                }
                if ids_of_kind(prefix, kind).contains(id) {
                    let j = choose|j: int| 0 <= j < prefix.len() && #[trigger] prefix[j].kind == kind && prefix[j].id == id;
                    assert(next[j] == prefix[j]);
                }
                if m.kind == kind && id == m.id {
                    assert(next[i as int] == m);
                }
            }
            assert(ids@ =~= ids_of_kind(next, kind));
        }
        i = i + 1;
    }
    proof {
        assert(markers@.take(markers@.len() as int) =~= markers@);
    }
    ids
}

/// A marker of `kind` anywhere among `markers` makes the kind present.
pub proof fn lemma_kind_present_anywhere(markers: Seq<Marker>, kind: MarkerKind, i: int)
    requires
        0 <= i < markers.len(),
        markers[i].kind == kind,
    ensures
        has_kind(markers, kind),
{
}

/// The kind is present only if some marker has it.
pub proof fn lemma_kind_absent(markers: Seq<Marker>, kind: MarkerKind)
    requires
        forall|i: int| 0 <= i < markers.len() ==> markers[i].kind != kind,
    ensures
        !has_kind(markers, kind),
{
}

/// The id of every marker of `kind`, wherever it stands, is among the ids of
/// that kind; and each of those ids belongs to some marker of that kind.
pub proof fn lemma_ids_of_kind_members(markers: Seq<Marker>, kind: MarkerKind, id: u32)
    ensures
        ids_of_kind(markers, kind).contains(id) <==> exists|i: int|
            0 <= i < markers.len() && markers[i].kind == kind && #[trigger] markers[i].id == id,
{
    if exists|i: int| 0 <= i < markers.len() && markers[i].kind == kind && #[trigger] markers[i].id == id {
        let i = choose|i: int| 0 <= i < markers.len() && markers[i].kind == kind && #[trigger] markers[i].id == id;
        assert(markers[i].kind == kind);
    }
}

} // verus!
