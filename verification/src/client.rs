//! The requests a client sends, what each costs against the rate limits,
//! and how a request is addressed to the server on a player's behalf.
//!
//! `AppRequest` holds, as plain values, the fields of the protocol's request
//! message. An empty sub-message that only selects an operation is a flag;
//! a sub-message with content holds that content. Mouse deltas are `f32` on
//! the wire and are carried as their bit patterns.
use crate::error::Error;
use crate::tracker::RequestTracker;
use vstd::prelude::*;
use vstd::string::StringExecFns;

verus! {

/// A mouse movement, as the bit patterns of its two optional `f32`
/// components.
#[derive(Clone, Copy, Debug, PartialEq, Eq, Structural)]
pub struct Vector2 {
    pub x_bits: Option<u32>,
    pub y_bits: Option<u32>,
}

/// Input sent to a controlled camera.
#[derive(Clone, Copy, Debug, PartialEq, Eq, Structural)]
pub struct CameraInput {
    pub buttons: i32,
    pub mouse_delta: Vector2,
}

/// A request to the server.
#[derive(Clone, Debug, PartialEq, Eq)]
pub struct AppRequest {
    pub seq: u32,
    pub player_id: u64,
    pub player_token: i32,
    pub entity_id: Option<u32>,
    pub get_info: bool,
    pub get_time: bool,
    pub get_map: bool,
    pub get_team_info: bool,
    pub get_team_chat: bool,
    pub send_team_message: Option<String>,
    pub get_entity_info: bool,
    pub set_entity_value: Option<bool>,
    pub check_subscription: bool,
    pub set_subscription: Option<bool>,
    pub get_map_markers: bool,
    pub promote_to_leader: Option<u64>,
    pub get_clan_info: bool,
    pub set_clan_motd: Option<String>,
    pub get_clan_chat: bool,
    pub send_clan_message: Option<String>,
    pub get_nexus_auth: Option<String>,
    pub camera_subscribe: Option<String>,
    pub camera_unsubscribe: bool,
    pub camera_input: Option<CameraInput>,
}

/// The abstract value of a request: its fields, with each string taken as
/// its characters.
pub struct AppRequestView {
    pub seq: u32,
    pub player_id: u64,
    pub player_token: i32,
    pub entity_id: Option<u32>,
    pub get_info: bool,
    pub get_time: bool,
    pub get_map: bool,
    pub get_team_info: bool,
    pub get_team_chat: bool,
    pub send_team_message: Option<Seq<char>>,
    pub get_entity_info: bool,
    pub set_entity_value: Option<bool>,
    pub check_subscription: bool,
    pub set_subscription: Option<bool>,
    pub get_map_markers: bool,
    pub promote_to_leader: Option<u64>,
    pub get_clan_info: bool,
    pub set_clan_motd: Option<Seq<char>>,
    pub get_clan_chat: bool,
    pub send_clan_message: Option<Seq<char>>,
    pub get_nexus_auth: Option<Seq<char>>,
    pub camera_subscribe: Option<Seq<char>>,
    pub camera_unsubscribe: bool,
    pub camera_input: Option<CameraInput>,
}

/// The characters of an optional string.
pub open spec fn opt_chars(s: Option<String>) -> Option<Seq<char>> {
    match s {
        Some(s) => Some(s@),
        None => None,
    }
}

impl View for AppRequest {
    type V = AppRequestView;

    open spec fn view(&self) -> AppRequestView {
        AppRequestView {
            seq: self.seq,
            player_id: self.player_id,
            player_token: self.player_token,
            entity_id: self.entity_id,
            get_info: self.get_info,
            get_time: self.get_time,
            get_map: self.get_map,
            get_team_info: self.get_team_info,
            get_team_chat: self.get_team_chat,
            send_team_message: opt_chars(self.send_team_message),
            get_entity_info: self.get_entity_info,
            set_entity_value: self.set_entity_value,
            check_subscription: self.check_subscription,
            set_subscription: self.set_subscription,
            get_map_markers: self.get_map_markers,
            promote_to_leader: self.promote_to_leader,
            get_clan_info: self.get_clan_info,
            set_clan_motd: opt_chars(self.set_clan_motd),
            get_clan_chat: self.get_clan_chat,
            send_clan_message: opt_chars(self.send_clan_message),
            get_nexus_auth: opt_chars(self.get_nexus_auth),
            camera_subscribe: opt_chars(self.camera_subscribe),
            camera_unsubscribe: self.camera_unsubscribe,
            camera_input: self.camera_input,
        }
    }
}

/// The request with every field unset.
pub open spec fn blank_request() -> AppRequestView {
    AppRequestView {
        seq: 0,
        player_id: 0,
        player_token: 0,
        entity_id: None,
        get_info: false,
        get_time: false,
        get_map: false,
        get_team_info: false,
        get_team_chat: false,
        send_team_message: None,
        get_entity_info: false,
        set_entity_value: None,
        check_subscription: false,
        set_subscription: None,
        get_map_markers: false,
        promote_to_leader: None,
        get_clan_info: false,
        set_clan_motd: None,
        get_clan_chat: false,
        send_clan_message: None,
        get_nexus_auth: None,
        camera_subscribe: None,
        camera_unsubscribe: false,
        camera_input: None,
    }
}

/// What a request costs against the rate limits, in hundredths of a token:
/// fetching the map costs 5 tokens, a team message 2, camera input one
/// hundredth, anything else 1. The first of these that the request holds
/// decides.
pub open spec fn request_cost_spec(r: AppRequestView) -> u64 {
    if r.get_map {
        500
    } else if r.send_team_message is Some {
        200
    } else if r.camera_input is Some {
        1
    } else {
        100
    }
}

impl AppRequest {
    /// The request with every field unset.
    pub fn blank() -> (r: AppRequest)
        ensures
            r@ == blank_request(),
    {
        AppRequest {
            seq: 0,
            player_id: 0,
            player_token: 0,
            entity_id: None,
            get_info: false,
            get_time: false,
            get_map: false,
            get_team_info: false,
            get_team_chat: false,
            send_team_message: None,
            get_entity_info: false,
            set_entity_value: None,
            check_subscription: false,
            set_subscription: None,
            get_map_markers: false,
            promote_to_leader: None,
            get_clan_info: false,
            set_clan_motd: None,
            get_clan_chat: false,
            send_clan_message: None,
            get_nexus_auth: None,
            camera_subscribe: None,
            camera_unsubscribe: false,
            camera_input: None,
        }
    }

    /// What the request costs against the rate limits, in hundredths of a
    /// token.
    pub fn cost(&self) -> (c: u64)
        ensures
            c == request_cost_spec(self@),
    {
        if self.get_map {
            500
        } else if self.send_team_message.is_some() {
            200
        } else if self.camera_input.is_some() {
            1
        } else {
            100
        }
    }

    /// The request as sent on behalf of a player: numbered `seq` and carrying
    /// the player's id and token, everything else unchanged.
    pub fn stamped(self, seq: u32, player_id: u64, player_token: i32) -> (r: AppRequest)
        ensures
            r@ == (AppRequestView { seq, player_id, player_token, ..self@ }),
    {
        AppRequest { seq, player_id, player_token, ..self }
    }

    /// Asks for the server info.
    pub fn get_info() -> (r: AppRequest)
        ensures
            r@ == (AppRequestView { get_info: true, ..blank_request() }),
    {
        AppRequest { get_info: true, ..AppRequest::blank() }
    }

    /// Asks for the in-game time.
    pub fn get_time() -> (r: AppRequest)
        ensures
            r@ == (AppRequestView { get_time: true, ..blank_request() }),
    {
        AppRequest { get_time: true, ..AppRequest::blank() }
    }

    /// Asks for the map.
    pub fn get_map() -> (r: AppRequest)
        ensures
            r@ == (AppRequestView { get_map: true, ..blank_request() }),
    {
        AppRequest { get_map: true, ..AppRequest::blank() }
    }

    /// Asks for all map markers.
    pub fn get_map_markers() -> (r: AppRequest)
        ensures
            r@ == (AppRequestView { get_map_markers: true, ..blank_request() }),
    {
        AppRequest { get_map_markers: true, ..AppRequest::blank() }
    }

    /// Asks for the team info.
    pub fn get_team_info() -> (r: AppRequest)
        ensures
            r@ == (AppRequestView { get_team_info: true, ..blank_request() }),
    {
        AppRequest { get_team_info: true, ..AppRequest::blank() }
    }

    /// Asks for the info of entity `entity_id`.
    pub fn get_entity_info(entity_id: u32) -> (r: AppRequest)
        ensures
            r@ == (AppRequestView {
                entity_id: Some(entity_id),
                get_entity_info: true,
                ..blank_request()
            }),
    {
        AppRequest { entity_id: Some(entity_id), get_entity_info: true, ..AppRequest::blank() }
    }

    /// Sends `message` to the team chat.
    pub fn send_team_message(message: &str) -> (r: AppRequest)
        ensures
            r@ == (AppRequestView { send_team_message: Some(message@), ..blank_request() }),
    {
        AppRequest { send_team_message: Some(String::from_str(message)), ..AppRequest::blank() }
    }

    /// Sets the value of entity `entity_id`, such as a smart switch.
    pub fn set_entity_value(entity_id: u32, value: bool) -> (r: AppRequest)
        ensures
            r@ == (AppRequestView {
                entity_id: Some(entity_id),
                set_entity_value: Some(value),
                ..blank_request()
            }),
    {
        AppRequest {
            entity_id: Some(entity_id),
            set_entity_value: Some(value),
            ..AppRequest::blank()
        }
    }

    /// Turns the smart switch `entity_id` on: sets its value to `true`.
    pub fn turn_smart_switch_on(entity_id: u32) -> (r: AppRequest)
        ensures
            r@ == (AppRequestView {
                entity_id: Some(entity_id),
                set_entity_value: Some(true),
                ..blank_request()
            }),
    {
        AppRequest::set_entity_value(entity_id, true)
    }

    /// Turns the smart switch `entity_id` off: sets its value to `false`.
    pub fn turn_smart_switch_off(entity_id: u32) -> (r: AppRequest)
        ensures
            r@ == (AppRequestView {
                entity_id: Some(entity_id),
                set_entity_value: Some(false),
                ..blank_request()
            }),
    {
        AppRequest::set_entity_value(entity_id, false)
    }

    /// Subscribes to the camera `identifier`.
    pub fn subscribe_to_camera(identifier: &str) -> (r: AppRequest)
        ensures
            r@ == (AppRequestView { camera_subscribe: Some(identifier@), ..blank_request() }),
    {
        AppRequest { camera_subscribe: Some(String::from_str(identifier)), ..AppRequest::blank() }
    }

    /// Unsubscribes from the current camera.
    pub fn unsubscribe_from_camera() -> (r: AppRequest)
        ensures
            r@ == (AppRequestView { camera_unsubscribe: true, ..blank_request() }),
    {
        AppRequest { camera_unsubscribe: true, ..AppRequest::blank() }
    }

    /// Sends camera input: the pressed `buttons` and a mouse movement whose
    /// coordinates are given as `f32` bit patterns.
    pub fn send_camera_input(buttons: i32, x_bits: u32, y_bits: u32) -> (r: AppRequest)
        ensures
            r@ == (AppRequestView {
                camera_input: Some(
                    CameraInput {
                        buttons,
                        mouse_delta: Vector2 { x_bits: Some(x_bits), y_bits: Some(y_bits) },
                    },
                ),
                ..blank_request()
            }),
    {
        AppRequest {
            camera_input: Some(
                CameraInput {
                    buttons,
                    mouse_delta: Vector2 { x_bits: Some(x_bits), y_bits: Some(y_bits) },
                },
            ),
            ..AppRequest::blank()
        }
    }

    /// Asks for the team chat history.
    pub fn get_team_chat() -> (r: AppRequest)
        ensures
            r@ == (AppRequestView { get_team_chat: true, ..blank_request() }),
    {
        AppRequest { get_team_chat: true, ..AppRequest::blank() }
    }

    /// Promotes the team member `steam_id` to leader.
    pub fn promote_to_leader(steam_id: u64) -> (r: AppRequest)
        ensures
            r@ == (AppRequestView { promote_to_leader: Some(steam_id), ..blank_request() }),
    {
        AppRequest { promote_to_leader: Some(steam_id), ..AppRequest::blank() }
    }

    /// Asks whether the player is subscribed to entity `entity_id`.
    pub fn check_subscription(entity_id: u32) -> (r: AppRequest)
        ensures
            r@ == (AppRequestView {
                entity_id: Some(entity_id),
                check_subscription: true,
                ..blank_request()
            }),
    {
        AppRequest { entity_id: Some(entity_id), check_subscription: true, ..AppRequest::blank() }
    }

    /// Subscribes to, or unsubscribes from, entity `entity_id`.
    pub fn set_subscription(entity_id: u32, value: bool) -> (r: AppRequest)
        ensures
            r@ == (AppRequestView {
                entity_id: Some(entity_id),
                set_subscription: Some(value),
                ..blank_request()
            }),
    {
        AppRequest {
            entity_id: Some(entity_id),
            set_subscription: Some(value),
            ..AppRequest::blank()
        }
    }

    /// Asks for the clan info.
    pub fn get_clan_info() -> (r: AppRequest)
        ensures
            r@ == (AppRequestView { get_clan_info: true, ..blank_request() }),
    {
        AppRequest { get_clan_info: true, ..AppRequest::blank() }
    }

    /// Asks for the clan chat history.
    pub fn get_clan_chat() -> (r: AppRequest)
        ensures
            r@ == (AppRequestView { get_clan_chat: true, ..blank_request() }),
    {
        AppRequest { get_clan_chat: true, ..AppRequest::blank() }
    }

    /// Sends `message` to the clan chat.
    pub fn send_clan_message(message: &str) -> (r: AppRequest)
        ensures
            r@ == (AppRequestView { send_clan_message: Some(message@), ..blank_request() }),
    {
        AppRequest { send_clan_message: Some(String::from_str(message)), ..AppRequest::blank() }
    }

    /// Sets the clan's message of the day to `message`.
    pub fn set_clan_motd(message: &str) -> (r: AppRequest)
        ensures
            r@ == (AppRequestView { set_clan_motd: Some(message@), ..blank_request() }),
    {
        AppRequest { set_clan_motd: Some(String::from_str(message)), ..AppRequest::blank() }
    }

    /// Asks for Nexus authentication with `app_key`.
    pub fn get_nexus_auth(app_key: &str) -> (r: AppRequest)
        ensures
            r@ == (AppRequestView { get_nexus_auth: Some(app_key@), ..blank_request() }),
    {
        AppRequest { get_nexus_auth: Some(String::from_str(app_key)), ..AppRequest::blank() }
    }
}

/// Starts sending `request` on behalf of the player `player_id` with
/// `player_token`: without a connection it fails with `Disconnected`;
/// otherwise the request gets the next sequence number, `waiter` is
/// registered under it, and the request is returned ready to send.
pub fn begin_request<W>(
    tracker: &mut RequestTracker<W>,
    connected: bool,
    player_id: u64,
    player_token: i32,
    request: AppRequest,
    waiter: W,
) -> (r: Result<AppRequest, Error>)
    requires
        old(tracker)@.last_seq < u32::MAX,
        old(tracker)@.issued_numbers_only(),
    ensures
        final(tracker)@.issued_numbers_only(),
        !connected ==> r == Err::<AppRequest, Error>(Error::Disconnected) && final(tracker)@
            == old(tracker)@,
        connected ==> {
            let seq = (old(tracker)@.last_seq + 1) as u32;
            &&& r matches Ok(sent) && sent@ == (AppRequestView {
                seq,
                player_id,
                player_token,
                ..request@
            })
            &&& final(tracker)@.last_seq == seq
            &&& final(tracker)@.pending == old(tracker)@.pending.insert(seq, waiter)
        },
{
    if !connected {
        return Err(Error::Disconnected);
    }
    let seq = tracker.begin(waiter);
    Ok(request.stamped(seq, player_id, player_token))
}

impl Default for AppRequest {
    fn default() -> (r: AppRequest)
        ensures
            r@ == blank_request(),
    {
        AppRequest::blank()
    }
}

/// The cost of a request, in hundredths of a token: a map request costs 5
/// tokens, a team message 2, camera input one hundredth, and every other
/// request, whatever it holds, 1 token.
pub proof fn lemma_cost_table(r: AppRequestView)
    ensures
        r.get_map ==> request_cost_spec(r) == 500,
        !r.get_map && r.send_team_message is Some ==> request_cost_spec(r) == 200,
        !r.get_map && r.send_team_message is None && r.camera_input is Some ==> request_cost_spec(r)
            == 1,
        !r.get_map && r.send_team_message is None && r.camera_input is None ==> request_cost_spec(r)
            == 100,
{
}

/// The cost of a request depends only on whether it asks for the map, sends a
/// team message, or sends camera input: requests that agree on these three
/// cost the same, whatever else they hold.
pub proof fn lemma_cost_depends_on_three_fields(a: AppRequestView, b: AppRequestView)
    requires
        a.get_map == b.get_map,
        a.send_team_message is Some <==> b.send_team_message is Some,
        a.camera_input is Some <==> b.camera_input is Some,
    ensures
        request_cost_spec(a) == request_cost_spec(b),
{
}

/// The blank request is numbered 0, carries no player, and asks for
/// nothing: every operation field is unset.
pub proof fn lemma_blank_request_asks_nothing()
    ensures
        ({
            let b = blank_request();
            &&& b.seq == 0 && b.player_id == 0 && b.player_token == 0 && b.entity_id is None
            &&& !b.get_info && !b.get_time && !b.get_map && !b.get_team_info && !b.get_team_chat
            &&& b.send_team_message is None && !b.get_entity_info && b.set_entity_value is None
            &&& !b.check_subscription && b.set_subscription is None && !b.get_map_markers
            &&& b.promote_to_leader is None && !b.get_clan_info && b.set_clan_motd is None
            &&& !b.get_clan_chat && b.send_clan_message is None && b.get_nexus_auth is None
            &&& b.camera_subscribe is None && !b.camera_unsubscribe && b.camera_input is None
        }),
{
}

} // verus!
