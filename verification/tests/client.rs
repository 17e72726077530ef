use rustplus::client::{begin_request, AppRequest, CameraInput, Vector2};
use rustplus::error::{check_response, Error};
use rustplus::target::ConnectionTarget;
use rustplus::tracker::RequestTracker;

#[test]
fn request_costs() {
    assert_eq!(AppRequest::get_map().cost(), 500);
    assert_eq!(AppRequest::send_team_message("hi").cost(), 200);
    assert_eq!(AppRequest::send_camera_input(1, 0, 0).cost(), 1);
    assert_eq!(AppRequest::get_info().cost(), 100);
    assert_eq!(AppRequest::get_map_markers().cost(), 100);
    assert_eq!(AppRequest::send_clan_message("hi").cost(), 100);
}

#[test]
fn request_cost_priority_follows_map_then_message_then_camera() {
    let mut r = AppRequest::send_team_message("x");
    r.get_map = true;
    r.camera_input = Some(CameraInput { buttons: 0, mouse_delta: Vector2 { x_bits: None, y_bits: None } });
    assert_eq!(r.cost(), 500);
    r.get_map = false;
    assert_eq!(r.cost(), 200);
    r.send_team_message = None;
    assert_eq!(r.cost(), 1);
}

#[test]
fn builders_set_one_operation() {
    let r = AppRequest::get_entity_info(42);
    assert_eq!(r.entity_id, Some(42));
    assert!(r.get_entity_info);
    assert_eq!(r, AppRequest { entity_id: Some(42), get_entity_info: true, ..AppRequest::blank() });

    let r = AppRequest::set_entity_value(7, true);
    assert_eq!(r, AppRequest { entity_id: Some(7), set_entity_value: Some(true), ..AppRequest::default() });

    let r = AppRequest::send_team_message("Hello from Rust!");
    assert_eq!(r.send_team_message.as_deref(), Some("Hello from Rust!"));

    let r = AppRequest::subscribe_to_camera("DOME1");
    assert_eq!(r.camera_subscribe.as_deref(), Some("DOME1"));

    let r = AppRequest::send_camera_input(3, 1.5f32.to_bits(), (-2.0f32).to_bits());
    let input = r.camera_input.unwrap();
    assert_eq!(input.buttons, 3);
    assert_eq!(f32::from_bits(input.mouse_delta.x_bits.unwrap()), 1.5);
    assert_eq!(f32::from_bits(input.mouse_delta.y_bits.unwrap()), -2.0);

    assert_eq!(AppRequest::promote_to_leader(76561198000000000).promote_to_leader, Some(76561198000000000));
    assert_eq!(AppRequest::set_subscription(5, false).set_subscription, Some(false));
    assert!(AppRequest::check_subscription(5).check_subscription);
    assert_eq!(AppRequest::set_clan_motd("motd").set_clan_motd.as_deref(), Some("motd"));
    assert_eq!(AppRequest::get_nexus_auth("key").get_nexus_auth.as_deref(), Some("key"));
    assert!(AppRequest::get_time().get_time);
    assert!(AppRequest::get_team_info().get_team_info);
    assert!(AppRequest::get_team_chat().get_team_chat);
    assert!(AppRequest::get_clan_info().get_clan_info);
    assert!(AppRequest::get_clan_chat().get_clan_chat);
    assert!(AppRequest::unsubscribe_from_camera().camera_unsubscribe);
    assert!(AppRequest::get_info().get_info);
}

#[test]
fn stamped_request_carries_seq_and_player() {
    let r = AppRequest::get_info().stamped(9, 76561198000000001, -12345678);
    assert_eq!(r.seq, 9);
    assert_eq!(r.player_id, 76561198000000001);
    assert_eq!(r.player_token, -12345678);
    assert!(r.get_info);
}

#[test]
fn tracker_issues_increasing_numbers_and_routes_replies() {
    let mut tracker: RequestTracker<&str> = RequestTracker::new();
    let a = tracker.begin("first");
    let b = tracker.begin("second");
    assert_eq!((a, b), (1, 2));
    assert_eq!(tracker.complete(2), Some("second"));
    assert_eq!(tracker.complete(2), None);
    assert_eq!(tracker.route(Some(1)), Some("first"));
    assert_eq!(tracker.route(Some(1)), None);
    assert_eq!(tracker.route(None), None);
    assert!(tracker.can_begin());
}

#[test]
fn tracker_reset_starts_over() {
    let mut tracker: RequestTracker<u8> = RequestTracker::new();
    tracker.begin(1);
    tracker.begin(2);
    tracker.reset();
    assert_eq!(tracker.complete(1), None);
    assert_eq!(tracker.begin(3), 1);
}

#[test]
fn begin_request_needs_a_connection() {
    let mut tracker: RequestTracker<u8> = RequestTracker::new();
    let r = begin_request(&mut tracker, false, 1, 2, AppRequest::get_time(), 0);
    assert_eq!(r, Err(Error::Disconnected));
    // No number was used up.
    let sent = begin_request(&mut tracker, true, 11, -3, AppRequest::get_time(), 5).unwrap();
    assert_eq!(sent.seq, 1);
    assert_eq!(sent.player_id, 11);
    assert_eq!(sent.player_token, -3);
    assert!(sent.get_time);
    assert_eq!(tracker.complete(1), Some(5));
}

#[test]
fn api_error_becomes_error() {
    assert_eq!(check_response(Some("not_found".to_string())), Err(Error::Api("not_found".to_string())));
    assert_eq!(check_response(None), Ok(()));
}

#[test]
fn direct_address() {
    let t = ConnectionTarget { server: "127.0.0.1".to_string(), port: 28082, use_facepunch_proxy: false };
    assert!(!t.needs_proxy_version());
    assert_eq!(t.address(0), "ws://127.0.0.1:28082");
    assert!(t.handshake_headers().is_empty());
}

#[test]
fn proxy_address_and_headers() {
    let t = ConnectionTarget { server: "1.2.3.4".to_string(), port: 0, use_facepunch_proxy: true };
    assert!(t.needs_proxy_version());
    assert_eq!(t.address(1_700_000_000_001), "wss://companion-rust.facepunch.com/game/1.2.3.4/0?v=1700000000001");
    assert_eq!(t.address(-5), "wss://companion-rust.facepunch.com/game/1.2.3.4/0?v=-5");
    assert_eq!(t.address(i64::MIN), format!("wss://companion-rust.facepunch.com/game/1.2.3.4/0?v={}", i64::MIN));
    assert_eq!(
        t.handshake_headers(),
        vec![("origin", "https://rustplus.facepunch.com"), ("user-agent", "@facepunch/RustCompanion")]
    );
}

#[test]
fn port_digits() {
    let t = ConnectionTarget { server: "h".to_string(), port: 65535, use_facepunch_proxy: false };
    assert_eq!(t.address(0), "ws://h:65535");
    let t = ConnectionTarget { server: "h".to_string(), port: 10, use_facepunch_proxy: false };
    assert_eq!(t.address(0), "ws://h:10");
}

#[test]
fn numbers_after_reset_are_one_to_n() {
    let mut tracker: RequestTracker<usize> = RequestTracker::new();
    tracker.begin(100);
    tracker.reset();
    let numbers: Vec<u32> = (0..5).map(|i| tracker.begin(i)).collect();
    assert_eq!(numbers, vec![1, 2, 3, 4, 5]);
    for (i, n) in numbers.iter().enumerate() {
        assert_eq!(tracker.complete(*n), Some(i));
    }
}

#[test]
fn smart_switch_requests_set_the_entity_value() {
    assert_eq!(AppRequest::turn_smart_switch_on(12), AppRequest::set_entity_value(12, true));
    assert_eq!(AppRequest::turn_smart_switch_off(12), AppRequest::set_entity_value(12, false));
    assert_eq!(AppRequest::turn_smart_switch_on(12).set_entity_value, Some(true));
}
