use rustplus::events::{Coord, EntityKind, Marker, MarkerKind, RayEntity, RustEvent};
use rustplus::monitors::camera::CameraMonitor;
use rustplus::monitors::cargo::CargoMonitor;
use rustplus::monitors::explosion::ExplosionMonitor;
use rustplus::monitors::vending::VendingMonitor;

fn marker(id: u32, kind: MarkerKind, x: f32, y: f32) -> Marker {
    Marker { id, kind, position: Coord { x_bits: x.to_bits(), y_bits: y.to_bits() } }
}

fn entity(id: u32, kind: EntityKind, name: Option<&str>) -> RayEntity {
    RayEntity { entity_id: id, kind, name: name.map(|n| n.to_string()) }
}

#[test]
fn explosion_first_tick_is_baseline() {
    let mut m = ExplosionMonitor::new();
    let markers = vec![marker(1, MarkerKind::Explosion, 10.0, 20.0)];
    assert!(m.on_tick(&markers).is_empty());
    assert!(m.on_tick(&markers).is_empty());
}

#[test]
fn explosion_new_marker_reported_once() {
    let mut m = ExplosionMonitor::new();
    m.on_tick(&[marker(1, MarkerKind::Explosion, 1.0, 1.0)]);
    let next = vec![
        marker(1, MarkerKind::Explosion, 1.0, 1.0),
        marker(2, MarkerKind::VendingMachine, 5.0, 5.0),
        marker(3, MarkerKind::Explosion, 100.5, -3.25),
    ];
    let events = m.on_tick(&next);
    assert_eq!(events.len(), 1);
    match &events[0] {
        RustEvent::ExplosionOccurred { position } => {
            assert_eq!(f32::from_bits(position.x_bits), 100.5);
            assert_eq!(f32::from_bits(position.y_bits), -3.25);
        }
        other => panic!("unexpected event {:?}", other),
    }
    assert!(m.on_tick(&next).is_empty());
}

#[test]
fn explosion_that_disappears_and_returns_is_new_again() {
    let mut m = ExplosionMonitor::new();
    m.on_tick(&[marker(4, MarkerKind::Explosion, 0.0, 0.0)]);
    assert!(m.on_tick(&[]).is_empty());
    assert_eq!(m.on_tick(&[marker(4, MarkerKind::Explosion, 0.0, 0.0)]).len(), 1);
}

#[test]
fn explosion_default_reports_on_first_tick() {
    let mut m = ExplosionMonitor::default();
    assert_eq!(m.on_tick(&[marker(4, MarkerKind::Explosion, 0.0, 0.0)]).len(), 1);
}

#[test]
fn vending_new_machine_reported_with_id() {
    let mut m = VendingMonitor::new();
    assert!(m.on_tick(&[marker(8, MarkerKind::VendingMachine, 1.0, 2.0)]).is_empty());
    let events = m.on_tick(&[
        marker(8, MarkerKind::VendingMachine, 1.0, 2.0),
        marker(9, MarkerKind::VendingMachine, 3.0, 4.0),
        marker(10, MarkerKind::Explosion, 3.0, 4.0),
    ]);
    assert_eq!(
        events,
        vec![RustEvent::VendingMachineNew {
            position: Coord { x_bits: 3.0f32.to_bits(), y_bits: 4.0f32.to_bits() },
            id: 9
        }]
    );
}

#[test]
fn vending_default_reports_on_first_tick() {
    let mut m = VendingMonitor::default();
    assert_eq!(m.on_tick(&[marker(1, MarkerKind::VendingMachine, 0.0, 0.0)]).len(), 1);
}

#[test]
fn cargo_spawn_and_despawn() {
    let mut m = CargoMonitor::new();
    let ship = vec![marker(50, MarkerKind::CargoShip, 0.0, 0.0)];
    assert!(m.on_tick_at(&[], 0).is_empty());
    assert_eq!(m.on_tick_at(&ship, 5_000), vec![RustEvent::CargoSpawned]);
    assert!(m.on_tick_at(&ship, 10_000).is_empty());
    assert_eq!(m.on_tick_at(&[], 65_000), vec![RustEvent::CargoDespawned { was_out_for_ns: 60_000 }]);
    assert!(m.on_tick_at(&[], 70_000).is_empty());
    assert_eq!(m.on_tick_at(&ship, 80_000), vec![RustEvent::CargoSpawned]);
}

#[test]
fn cargo_with_clock() {
    let mut m = CargoMonitor::default();
    let ship = vec![marker(50, MarkerKind::CargoShip, 0.0, 0.0)];
    assert_eq!(m.on_tick(&ship), vec![RustEvent::CargoSpawned]);
    let events = m.on_tick(&[marker(1, MarkerKind::Player, 0.0, 0.0)]);
    assert!(matches!(events.as_slice(), [RustEvent::CargoDespawned { .. }]));
}

#[test]
fn camera_reports_new_players() {
    let mut m = CameraMonitor::new("DOME1".to_string());
    let seen = vec![
        entity(1, EntityKind::Player, Some("alice")),
        entity(2, EntityKind::Tree, None),
        entity(3, EntityKind::Player, None),
    ];
    let events = m.on_rays_at(&seen, 1_000);
    assert_eq!(
        events,
        vec![RustEvent::CameraMotion {
            camera_id: "DOME1".to_string(),
            player_count: 2,
            names: vec!["alice".to_string()]
        }]
    );
    // The same players again: nothing new.
    assert!(m.on_rays_at(&seen, 40_000_000_000).is_empty());
}

#[test]
fn camera_cooldown_suppresses_motion() {
    let mut m = CameraMonitor::new("cam".to_string());
    assert_eq!(m.on_rays_at(&[entity(1, EntityKind::Player, Some("a"))], 0).len(), 1);
    // A new player 10 s later is within the 30 s cooldown.
    let two = vec![entity(1, EntityKind::Player, Some("a")), entity(2, EntityKind::Player, Some("b"))];
    assert!(m.on_rays_at(&two, 10_000_000_000).is_empty());
    // Player 2 is now known; a third player after exactly 30 s is still quiet.
    let three = vec![entity(3, EntityKind::Player, Some("c"))];
    assert!(m.on_rays_at(&three, 30_000_000_000).is_empty());
    // Player 4 after more than 30 s is reported.
    let four = vec![entity(4, EntityKind::Player, Some("d")), entity(3, EntityKind::Player, Some("c"))];
    let events = m.on_rays_at(&four, 30_000_000_001);
    assert_eq!(
        events,
        vec![RustEvent::CameraMotion {
            camera_id: "cam".to_string(),
            player_count: 2,
            names: vec!["d".to_string(), "c".to_string()]
        }]
    );
}

#[test]
fn camera_ignores_new_non_players() {
    let mut m = CameraMonitor::new("cam".to_string());
    assert!(m.on_rays_at(&[entity(9, EntityKind::Tree, None), entity(8, EntityKind::Other, None)], 0).is_empty());
}

#[test]
fn camera_known_entity_turning_player_is_not_new() {
    let mut m = CameraMonitor::new("cam".to_string());
    assert!(m.on_rays_at(&[entity(5, EntityKind::Other, None)], 0).is_empty());
    assert!(m.on_rays_at(&[entity(5, EntityKind::Player, Some("p"))], 1).is_empty());
}

#[test]
fn camera_with_clock() {
    let mut m = CameraMonitor::new("cam".to_string());
    assert_eq!(m.on_rays(&[entity(1, EntityKind::Player, None)]).len(), 1);
}
