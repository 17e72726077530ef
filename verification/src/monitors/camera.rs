//! Watches a camera and reports when new players come into view.
use crate::clock::{elapsed_ns, Clock};
use crate::events::{EntityKind, RayEntity, RustEvent};
use vstd::prelude::*;

verus! {

/// After reporting motion, a camera stays quiet for this many nanoseconds
/// (30 seconds).
pub const MOTION_COOLDOWN_NS: u64 = 30_000_000_000;

/// The number of players among `entities`.
pub open spec fn player_count(entities: Seq<RayEntity>) -> nat
    decreases entities.len(),
{
    if entities.len() == 0 {
        0
    } else {
        player_count(entities.drop_last()) + if entities.last().kind == EntityKind::Player {
            1nat
        } else {
            0nat
        }
    }
}

/// The names of the named players among `entities`, in order.
pub open spec fn player_names(entities: Seq<RayEntity>) -> Seq<Seq<char>>
    decreases entities.len(),
{
    if entities.len() == 0 {
        seq![]
    } else {
        let earlier = player_names(entities.drop_last());
        let e = entities.last();
        if e.kind == EntityKind::Player && e.name is Some {
            earlier.push(e.name->0@)
        } else {
            earlier
        }
    }
}

/// The ids of `entities`, in order.
pub open spec fn entity_ids(entities: Seq<RayEntity>) -> Seq<u32> {
    entities.map_values(|e: RayEntity| e.entity_id)
}

/// Whether some player among `entities` has an id not among `last_ids`.
pub open spec fn has_new_player(entities: Seq<RayEntity>, last_ids: Seq<u32>) -> bool {
    exists|i: int|
        0 <= i < entities.len() && #[trigger] entities[i].kind == EntityKind::Player
            && !last_ids.contains(entities[i].entity_id)
}

/// Whether the cooldown that started at `cooldown` (if any) is over at
/// `now`.
pub open spec fn cooled_down(cooldown: Option<u64>, now: u64) -> bool {
    match cooldown {
        None => true,
        Some(since) => elapsed_ns(since, now) > MOTION_COOLDOWN_NS,
    }
}

/// The abstract state of a camera monitor.
pub struct CameraMonitorView {
    pub camera_id: Seq<char>,
    /// The ids of all entities seen at the previous message.
    pub last_ids: Seq<u32>,
    /// When motion was last reported, in nanoseconds on the monitor's clock.
    pub cooldown: Option<u64>,
}

/// Whether a message with `entities` at `now` reports motion.
pub open spec fn motion_seen(s: CameraMonitorView, entities: Seq<RayEntity>, now: u64) -> bool {
    has_new_player(entities, s.last_ids) && cooled_down(s.cooldown, now)
}

/// Whether `event` is the motion report of camera `camera_id` for
/// `entities`.
pub open spec fn is_motion_report(event: RustEvent, camera_id: Seq<char>, entities: Seq<RayEntity>) -> bool {
    match event {
        RustEvent::CameraMotion { camera_id: id, player_count: count, names } => {
            &&& id@ == camera_id
            &&& count == player_count(entities)
            &&& names@.map_values(|n: String| n@) == player_names(entities)
        },
        _ => false,
    }
}

/// Reports players appearing in a camera's view, at most once per cooldown.
#[derive(Debug)]
pub struct CameraMonitor {
    camera_id: String,
    last_entity_ids: Vec<u32>,
    cooldown: Option<u64>,
    clock: Clock,
}

impl View for CameraMonitor {
    type V = CameraMonitorView;

    closed spec fn view(&self) -> CameraMonitorView {
        CameraMonitorView {
            camera_id: self.camera_id@,
            last_ids: self.last_entity_ids@,
            cooldown: self.cooldown,
        }
    }
}

/// Tells whether `id` is among `ids`.
fn contains_id(ids: &Vec<u32>, id: u32) -> (found: bool)
    ensures
        found == ids@.contains(id),
{
    let mut i: usize = 0;
    while i < ids.len()
        invariant
            i <= ids@.len(),
            forall|j: int| 0 <= j < i ==> ids@[j] != id,
        decreases ids@.len() - i,
    {
        if ids[i] == id {
            proof {
                assert(ids@[i as int] == id);
            }
            return true;
        }
        i = i + 1;
    }
    false
}

impl CameraMonitor {
    /// The last reading of the monitor's clock.
    pub closed spec fn clock_reading(&self) -> u64 {
        self.clock@
    }

    /// A monitor, with its own clock, for the camera `camera_id`, which has
    /// seen nothing yet.
    pub fn new(camera_id: String) -> (r: CameraMonitor)
        ensures
            r@.camera_id == camera_id@,
            r@.last_ids == Seq::<u32>::empty(),
            r@.cooldown == None::<u64>,
            r.clock_reading() == 0,
    {
        CameraMonitor {
            camera_id,
            last_entity_ids: Vec::new(),
            cooldown: None,
            clock: Clock::start(),
        }
    }

    /// Processes the entities of one camera-rays message received at
    /// `now_ns` nanoseconds on the monitor's clock, and returns the events
    /// it raises: one motion report when a player not seen in the previous
    /// message is in view and the cooldown is over, none otherwise.
    pub fn on_rays_at(&mut self, entities: &[RayEntity], now_ns: u64) -> (events: Vec<RustEvent>)
        ensures
            final(self)@.camera_id == old(self)@.camera_id,
            final(self)@.last_ids == entity_ids(entities@),
            final(self).clock_reading() == old(self).clock_reading(),
            final(self)@.cooldown == (if motion_seen(old(self)@, entities@, now_ns) {
                Some(now_ns)
            } else {
                old(self)@.cooldown
            }),
            events@.len() == (if motion_seen(old(self)@, entities@, now_ns) {
                1int
            } else {
                0int
            }),
            motion_seen(old(self)@, entities@, now_ns) ==> is_motion_report(
                events@[0],
                old(self)@.camera_id,
                entities@,
            ),
    {
        let mut count: usize = 0;
        let mut names: Vec<String> = Vec::new();
        let mut new_player: bool = false;
        let mut ids: Vec<u32> = Vec::new();
        let mut i: usize = 0;
        while i < entities.len()
            invariant
                i <= entities@.len(),
                count == player_count(entities@.take(i as int)),
                count <= i,
                names@.map_values(|n: String| n@) == player_names(entities@.take(i as int)),
                new_player == has_new_player(entities@.take(i as int), self.last_entity_ids@),
                ids@ == entity_ids(entities@.take(i as int)),
            decreases entities@.len() - i,
        {
            let e = &entities[i];
            let ghost prefix = entities@.take(i as int);
            let ghost next = entities@.take(i + 1);
            proof {
                assert(next.drop_last() =~= prefix);
                assert(next.last() == *e);
            }
            if e.kind == EntityKind::Player {
                count = count + 1;
                if !contains_id(&self.last_entity_ids, e.entity_id) {
                    new_player = true;
                }
                match &e.name {
                    Some(name) => {
                        names.push(name.clone());
                    },
                    None => {},
                }
            }
            ids.push(e.entity_id);
            proof {
                assert(names@.map_values(|n: String| n@) =~= player_names(next));
                assert(ids@ =~= entity_ids(next));
                if has_new_player(prefix, self.last_entity_ids@) {
                    let j = choose|j: int|
                        0 <= j < prefix.len() && #[trigger] prefix[j].kind == EntityKind::Player
                            && !self.last_entity_ids@.contains(prefix[j].entity_id);
                    assert(next[j] == prefix[j]);
                }
                if has_new_player(next, self.last_entity_ids@) {
                    let j = choose|j: int|
                        0 <= j < next.len() && #[trigger] next[j].kind == EntityKind::Player
                            && !self.last_entity_ids@.contains(next[j].entity_id);
                    if j < i {
                        assert(prefix[j] == next[j]);
                    }
                }
            }
            i = i + 1;
        }
        proof {
            assert(entities@.take(entities@.len() as int) =~= entities@);
        }
        let cooled: bool = match self.cooldown {
            None => true,
            Some(since) => {
                let elapsed: u64 = if now_ns > since { now_ns - since } else { 0 };
                elapsed > MOTION_COOLDOWN_NS
            },
        };
        let mut events: Vec<RustEvent> = Vec::new();
        if new_player && cooled {
            events.push(
                RustEvent::CameraMotion {
                    camera_id: self.camera_id.clone(),
                    player_count: count,
                    names,
                },
            );
            self.cooldown = Some(now_ns);
        }
        self.last_entity_ids = ids;
        events
    }

    /// Processes the entities of one camera-rays message at the current time
    /// on the monitor's clock, whose reading is no earlier than the previous
    /// one; the step is the one `on_rays_at` takes at that reading.
    pub fn on_rays(&mut self, entities: &[RayEntity]) -> (events: Vec<RustEvent>)
        ensures
            final(self)@.camera_id == old(self)@.camera_id,
            final(self)@.last_ids == entity_ids(entities@),
            exists|now_ns: u64|
                {
                    &&& now_ns >= old(self).clock_reading()
                    &&& final(self).clock_reading() == now_ns
                    &&& final(self)@.cooldown == (if #[trigger] motion_seen(
                        old(self)@,
                        entities@,
                        now_ns,
                    ) {
                        Some(now_ns)
                    } else {
                        old(self)@.cooldown
                    })
                    &&& events@.len() == (if motion_seen(old(self)@, entities@, now_ns) {
                        1int
                    } else {
                        0int
                    })
                    &&& motion_seen(old(self)@, entities@, now_ns) ==> is_motion_report(
                        events@[0],
                        old(self)@.camera_id,
                        entities@,
                    )
                },
    {
        let now_ns = self.clock.now_ns();
        self.on_rays_at(entities, now_ns)
    }
}

/// After a motion report, the camera stays quiet for the cooldown: no
/// report comes at any time up to 30 seconds later.
pub proof fn lemma_quiet_during_cooldown(
    s: CameraMonitorView,
    entities: Seq<RayEntity>,
    reported_at: u64,
    now: u64,
)
    requires
        s.cooldown == Some(reported_at),
        elapsed_ns(reported_at, now) <= MOTION_COOLDOWN_NS,
    ensures
        !motion_seen(s, entities, now),
{
}

/// A camera that sees the same entities as at the previous message reports
/// no motion.
pub proof fn lemma_unchanged_view_quiet(s: CameraMonitorView, entities: Seq<RayEntity>, now: u64)
    requires
        s.last_ids == entity_ids(entities),
    ensures
        !motion_seen(s, entities, now),
{
    assert forall|i: int|
        0 <= i < entities.len() && #[trigger] entities[i].kind == EntityKind::Player
            implies s.last_ids.contains(entities[i].entity_id) by {
        assert(s.last_ids[i] == entities[i].entity_id);
    }
}

/// A player whose id was not among the previous message's ids, at any
/// position, is reported once the cooldown is over.
pub proof fn lemma_new_player_reported(
    s: CameraMonitorView,
    entities: Seq<RayEntity>,
    now: u64,
    i: int,
)
    requires
        0 <= i < entities.len(),
        entities[i].kind == EntityKind::Player,
        !s.last_ids.contains(entities[i].entity_id),
        match s.cooldown {
            None => true,
            Some(since) => now > since && now - since > MOTION_COOLDOWN_NS,
        },
    ensures
        motion_seen(s, entities, now),
{
    assert(entities[i].kind == EntityKind::Player);
}

/// Motion is reported only when some player's id was not among the previous
/// message's ids and the cooldown is over.
pub proof fn lemma_motion_needs_new_player(s: CameraMonitorView, entities: Seq<RayEntity>, now: u64)
    requires
        motion_seen(s, entities, now),
    ensures
        exists|i: int|
            0 <= i < entities.len() && #[trigger] entities[i].kind == EntityKind::Player
                && !s.last_ids.contains(entities[i].entity_id),
        match s.cooldown {
            None => true,
            Some(since) => now > since && now - since > MOTION_COOLDOWN_NS,
        },
{
}

/// A motion report counts every player in view, and names every named
/// player in view, in order.
pub proof fn lemma_report_counts_and_names_players(entities: Seq<RayEntity>)
    ensures
        player_count(entities) == entities.filter(
            |e: RayEntity| e.kind == EntityKind::Player,
        ).len(),
        player_names(entities) == entities.filter(
            |e: RayEntity| e.kind == EntityKind::Player && e.name is Some,
        ).map_values(|e: RayEntity| e.name->0@),
    decreases entities.len(),
{
    let is_player = |e: RayEntity| e.kind == EntityKind::Player;
    let named = |e: RayEntity| e.kind == EntityKind::Player && e.name is Some;
    let name_of = |e: RayEntity| e.name->0@;
    reveal_with_fuel(Seq::<RayEntity>::filter, 1);
    if entities.len() > 0 {
        let rest = entities.drop_last();
        lemma_report_counts_and_names_players(rest);
        let last = entities.last();
        assert(entities.filter(is_player) == (if is_player(last) {
            rest.filter(is_player).push(last)
        } else {
            rest.filter(is_player)
        }));
        assert(entities.filter(named) == (if named(last) {
            rest.filter(named).push(last)
        } else {
            rest.filter(named)
        }));
        if named(last) {
            assert(rest.filter(named).push(last).map_values(name_of) =~= rest.filter(
                named,
            ).map_values(name_of).push(name_of(last)));
        }
    } else {
        assert(entities.filter(is_player) =~= Seq::<RayEntity>::empty());
        assert(entities.filter(named) =~= Seq::<RayEntity>::empty());
        assert(entities.filter(named).map_values(name_of) =~= Seq::<Seq<char>>::empty());
    }
}

/// No report comes within 30 seconds of the last one, whatever is in view.
pub proof fn lemma_no_report_within_cooldown(
    s: CameraMonitorView,
    entities: Seq<RayEntity>,
    reported_at: u64,
    now: u64,
)
    requires
        s.cooldown == Some(reported_at),
        now <= reported_at + MOTION_COOLDOWN_NS,
    ensures
        !motion_seen(s, entities, now),
{
}

} // verus!
