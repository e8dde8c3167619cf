use reactive_rooms::domain::event::{DisconnectReason, ToHostEvent, ToUserEvent};
use reactive_rooms::domain::message::{
    HostWebSocketMessage, ToHostMessage, ToUserMessage, UserWebSocketMessage,
};
use reactive_rooms::domain::room::{Room, RoomId, RoomType};
use reactive_rooms::domain::user::UserId;
use reactive_rooms::message_bus::Delivery;
use reactive_rooms::websocket::host::{
    cleanup_host_disconnect, handle_host_message, route_host_frame, HostMailStep, HostRelay,
    HostRoute, HostSession,
};
use reactive_rooms::websocket::user::{
    cleanup_user_disconnect, handle_user_message, route_user_frame, UserMailStep, UserRelay,
    UserSession,
};
use reactive_rooms::websocket::{
    Heartbeat, SocketEvent, TickStep, EVENT_DISCONNECT, EVENT_MESSAGE, PING_INTERVAL_MS,
    PONG_TIMEOUT_MS,
};
use reactive_rooms::AppState;
use tokio::sync::mpsc::error::TryRecvError;

const ROOM: &str = "00000000-0000-0000-0000-00000000000a";

fn state_with_room() -> AppState {
    let mut state = AppState::new();
    let room = Room::with_id(RoomId::from_u128(10), UserId::new("u-1"), RoomType::new("chess"));
    state.storage.create_room(room).unwrap();
    state
}

fn json(text: &str) -> serde_json::Value {
    serde_json::from_str(text).unwrap()
}

fn to_host(state: &AppState, room: &str, message: ToHostMessage) -> Delivery {
    state.message_bus.send_to_host(room, message).outcome()
}

fn to_user(state: &AppState, user: &UserId, room: &str, message: ToUserMessage) -> Delivery {
    state.message_bus.send_to_user(user, room, message).outcome()
}

/// What a relay of a host's frame amounts to, where something was offered:
/// the event, the user named, the reason named, and what became of it.
fn host_sent(
    relay: Option<HostRelay>,
) -> (ToUserEvent, UserId, Option<DisconnectReason>, Delivery) {
    match relay {
        Some(HostRelay::Sent(offer)) => {
            (offer.event(), offer.user_id().clone(), offer.reason(), offer.outcome())
        },
        _ => panic!("nothing was offered"),
    }
}

/// What a relay of a user's frame amounts to, where something was offered:
/// the event, the user named, and what became of it.
fn user_sent(relay: Option<UserRelay>) -> (ToHostEvent, UserId, Delivery) {
    match relay {
        Some(UserRelay::Sent(offer)) => (offer.event(), offer.user_id().clone(), offer.outcome()),
        _ => panic!("nothing was offered"),
    }
}

fn host_frame(event: &str, user: &str, message: &str) -> HostWebSocketMessage {
    HostWebSocketMessage {
        event: event.to_string(),
        user_id: UserId::new(user),
        message: json(message),
    }
}

fn user_frame(event: &str, message: &str) -> UserWebSocketMessage {
    UserWebSocketMessage { event: event.to_string(), message: json(message) }
}

#[test]
fn timer_constants() {
    assert_eq!(PING_INTERVAL_MS, 30_000);
    assert_eq!(PONG_TIMEOUT_MS, 10_000);
    assert_eq!(EVENT_MESSAGE, "MESSAGE");
    assert_eq!(EVENT_DISCONNECT, "DISCONNECT");
}

#[test]
fn heartbeat_awaits_the_pong_ten_seconds() {
    let mut heartbeat = Heartbeat::new();
    assert_eq!(heartbeat.pong_deadline, None);
    assert!(!heartbeat.overdue(u64::MAX));
    heartbeat.arm(30_000);
    assert_eq!(heartbeat.pong_deadline, Some(40_000));
    assert!(!heartbeat.overdue(39_999));
    assert!(!heartbeat.overdue(40_000));
    assert!(heartbeat.overdue(40_001));
    heartbeat.clear();
    assert_eq!(heartbeat.pong_deadline, None);
    assert!(!heartbeat.overdue(40_001));
}

#[test]
fn heartbeat_deadline_stops_at_the_last_moment() {
    let mut heartbeat = Heartbeat::new();
    heartbeat.arm(u64::MAX - 10_000);
    assert_eq!(heartbeat.pong_deadline, Some(u64::MAX));
    heartbeat.arm(u64::MAX - 9_999);
    assert_eq!(heartbeat.pong_deadline, Some(u64::MAX));
    heartbeat.arm(u64::MAX);
    assert_eq!(heartbeat.pong_deadline, Some(u64::MAX));
    assert!(!heartbeat.overdue(u64::MAX));
    heartbeat.arm(0);
    assert_eq!(heartbeat.pong_deadline, Some(10_000));
}

#[test]
fn host_connect_and_user_join() {
    let mut state = state_with_room();
    let (host, mut host_box) = HostSession::start(&mut state, ROOM, UserId::new("u-1"));
    assert_eq!(host.room_id(), ROOM);
    assert_eq!(host.host_id(), &UserId::new("u-1"));
    assert!(!host.is_closing());
    assert_eq!(host.pong_deadline(), None);
    assert!(matches!(host_box.try_recv(), Err(TryRecvError::Empty)));

    let entry = UserSession::start(&mut state, ROOM, UserId::new("u-2"));
    assert!(entry.added);
    assert!(entry.displaced.is_none());
    assert_eq!(entry.join_notice.outcome(), Delivery::Queued);
    assert_eq!(entry.join_notice.event(), ToHostEvent::JoinRoom);
    assert_eq!(entry.join_notice.user_id(), &UserId::new("u-2"));
    assert_eq!(entry.session.room_id(), ROOM);
    assert_eq!(entry.session.user_id(), &UserId::new("u-2"));
    assert!(!entry.session.is_closing());
    assert_eq!(entry.session.pong_deadline(), None);
    assert!(state.storage.is_user_in_room(ROOM, &UserId::new("u-2")));
    assert_eq!(host_box.try_recv().unwrap(), ToHostMessage::join_room(UserId::new("u-2")));
}

#[test]
fn user_join_without_a_host_loses_the_notice() {
    let mut state = state_with_room();
    let entry = UserSession::start(&mut state, ROOM, UserId::new("u-2"));
    assert!(entry.added);
    assert_eq!(entry.join_notice.outcome(), Delivery::NoMailbox);
    assert_eq!(entry.join_notice.event(), ToHostEvent::JoinRoom);
}

#[test]
fn user_join_in_a_missing_room_makes_no_member() {
    let mut state = AppState::new();
    let entry = UserSession::start(&mut state, ROOM, UserId::new("u-2"));
    assert!(!entry.added);
    assert!(!state.storage.is_user_in_room(ROOM, &UserId::new("u-2")));
    assert!(!entry.session.is_closing());
}

#[test]
fn relay() {
    let mut state = state_with_room();
    let (mut host, mut host_box) = HostSession::start(&mut state, ROOM, UserId::new("u-1"));
    let mut entry = UserSession::start(&mut state, ROOM, UserId::new("u-2"));
    host_box.try_recv().unwrap();

    let relay = entry.session.on_socket(
        &state,
        SocketEvent::Frame(user_frame("MESSAGE", "{\"k\":1}")),
    );
    assert_eq!(user_sent(relay), (ToHostEvent::Message, UserId::new("u-2"), Delivery::Queued));
    let mail = host_box.try_recv().unwrap();
    assert_eq!(mail, ToHostMessage::message(UserId::new("u-2"), json("{\"k\":1}")));
    match host.on_mailbox(Some(mail)) {
        HostMailStep::Forward(message) => {
            assert_eq!(message, ToHostMessage::message(UserId::new("u-2"), json("{\"k\":1}")));
        },
        other => panic!("not forwarded: {:?}", other),
    }
    host.on_forward_result(true);
    assert!(!host.is_closing());

    let relay =
        host.on_socket(&state, SocketEvent::Frame(host_frame("MESSAGE", "u-2", "{\"ok\":true}")));
    assert_eq!(
        host_sent(relay),
        (ToUserEvent::Message, UserId::new("u-2"), None, Delivery::Queued)
    );
    let mail = entry.receiver.try_recv().unwrap();
    assert_eq!(mail, ToUserMessage::message(UserId::new("u-2"), json("{\"ok\":true}")));
    match entry.session.on_mailbox(Some(mail)) {
        UserMailStep::Forward(message) => {
            assert_eq!(message, ToUserMessage::message(UserId::new("u-2"), json("{\"ok\":true}")));
        },
        other => panic!("not forwarded: {:?}", other),
    }
    assert!(!entry.session.is_closing());
}

#[test]
fn kick() {
    let mut state = state_with_room();
    let (mut host, mut host_box) = HostSession::start(&mut state, ROOM, UserId::new("u-1"));
    let mut entry = UserSession::start(&mut state, ROOM, UserId::new("u-2"));
    host_box.try_recv().unwrap();

    let relay =
        host.on_socket(&state, SocketEvent::Frame(host_frame("DISCONNECT", "u-2", "null")));
    assert_eq!(
        host_sent(relay),
        (
            ToUserEvent::Disconnect,
            UserId::new("u-2"),
            Some(DisconnectReason::Kicked),
            Delivery::Queued
        )
    );
    let mail = entry.receiver.try_recv().unwrap();
    assert_eq!(mail, ToUserMessage::disconnect(UserId::new("u-2"), DisconnectReason::Kicked));
    match entry.session.on_mailbox(Some(mail)) {
        UserMailStep::ForwardThenClose(message) => {
            assert_eq!(
                message,
                ToUserMessage::disconnect(UserId::new("u-2"), DisconnectReason::Kicked)
            );
        },
        other => panic!("not closed: {:?}", other),
    }
    assert!(entry.session.is_closing());
    let leave = entry.session.finish(&mut state);
    assert_eq!(leave.outcome(), Delivery::Queued);
    assert_eq!(leave.event(), ToHostEvent::LeaveRoom);
    assert_eq!(leave.user_id(), &UserId::new("u-2"));
    assert!(!state.storage.is_user_in_room(ROOM, &UserId::new("u-2")));
    assert_eq!(host_box.try_recv().unwrap(), ToHostMessage::leave_room(UserId::new("u-2")));
    assert!(matches!(entry.receiver.try_recv(), Err(TryRecvError::Disconnected)));
    assert!(!host.is_closing());
}

#[test]
fn displacement() {
    let mut state = state_with_room();
    let (_host, mut host_box) = HostSession::start(&mut state, ROOM, UserId::new("u-1"));
    let mut first = UserSession::start(&mut state, ROOM, UserId::new("u-2"));
    let mut second = UserSession::start(&mut state, ROOM, UserId::new("u-2"));
    assert!(!second.added);
    let displaced = second.displaced.take().unwrap();
    assert_eq!(displaced.outcome(), Delivery::Queued);
    assert_eq!(displaced.event(), ToUserEvent::Disconnect);
    assert_eq!(displaced.user_id(), &UserId::new("u-2"));
    assert_eq!(displaced.reason(), Some(DisconnectReason::NewConnection));
    assert!(!second.session.is_closing());

    let mail = first.receiver.try_recv().unwrap();
    assert_eq!(mail, ToUserMessage::disconnect(UserId::new("u-2"), DisconnectReason::NewConnection));
    assert!(matches!(first.session.on_mailbox(Some(mail)), UserMailStep::ForwardThenClose(_)));
    assert!(first.session.is_closing());
    assert!(matches!(first.receiver.try_recv(), Err(TryRecvError::Disconnected)));
    assert!(matches!(second.receiver.try_recv(), Err(TryRecvError::Empty)));
    assert_eq!(host_box.try_recv().unwrap(), ToHostMessage::join_room(UserId::new("u-2")));
    assert_eq!(host_box.try_recv().unwrap(), ToHostMessage::join_room(UserId::new("u-2")));
}

#[test]
fn teardown_of_a_displaced_session_ends_what_its_successor_took_over() {
    let mut state = state_with_room();
    let (_host, mut host_box) = HostSession::start(&mut state, ROOM, UserId::new("u-1"));
    let first = UserSession::start(&mut state, ROOM, UserId::new("u-2"));
    let mut second = UserSession::start(&mut state, ROOM, UserId::new("u-2"));
    assert_eq!(first.session.finish(&mut state).outcome(), Delivery::Queued);
    assert!(!state.storage.is_user_in_room(ROOM, &UserId::new("u-2")));
    assert!(matches!(second.receiver.try_recv(), Err(TryRecvError::Disconnected)));
    assert!(matches!(second.session.on_mailbox(None), UserMailStep::Close));
    assert!(second.session.is_closing());
    host_box.try_recv().unwrap();
    host_box.try_recv().unwrap();
    assert_eq!(host_box.try_recv().unwrap(), ToHostMessage::leave_room(UserId::new("u-2")));
}

#[test]
fn host_teardown_closes_the_room() {
    let mut state = state_with_room();
    let (host, mut host_box) = HostSession::start(&mut state, ROOM, UserId::new("u-1"));
    let mut second = UserSession::start(&mut state, ROOM, UserId::new("u-2"));
    let mut third = UserSession::start(&mut state, ROOM, UserId::new("u-3"));

    let report = host.finish(&mut state);
    let mut users: Vec<String> = report.users.iter().map(|user| user.as_str().to_string()).collect();
    users.sort();
    assert_eq!(users, vec!["u-2".to_string(), "u-3".to_string()]);
    assert_eq!(report.notices.len(), 2);
    for (notice, user) in report.notices.iter().zip(report.users.iter()) {
        assert_eq!(notice.outcome(), Delivery::Queued);
        assert_eq!(notice.event(), ToUserEvent::Disconnect);
        assert_eq!(notice.user_id(), user);
        assert_eq!(notice.reason(), Some(DisconnectReason::RoomClosed));
    }
    assert!(state.storage.get_room(ROOM).is_none());
    assert!(!state.storage.is_user_in_room(ROOM, &UserId::new("u-2")));
    assert_eq!(
        to_host(&state, ROOM, ToHostMessage::join_room(UserId::new("u-9"))),
        Delivery::NoMailbox
    );
    host_box.try_recv().unwrap();
    host_box.try_recv().unwrap();
    assert!(matches!(host_box.try_recv(), Err(TryRecvError::Disconnected)));

    for (entry, name) in [(&mut second, "u-2"), (&mut third, "u-3")] {
        let mail = entry.receiver.try_recv().unwrap();
        assert_eq!(mail, ToUserMessage::disconnect(UserId::new(name), DisconnectReason::RoomClosed));
        assert!(matches!(entry.session.on_mailbox(Some(mail)), UserMailStep::ForwardThenClose(_)));
        assert!(entry.session.is_closing());
    }
    assert_eq!(second.session.finish(&mut state).outcome(), Delivery::NoMailbox);
    assert_eq!(third.session.finish(&mut state).outcome(), Delivery::NoMailbox);
    assert!(matches!(second.receiver.try_recv(), Err(TryRecvError::Disconnected)));
    assert!(matches!(third.receiver.try_recv(), Err(TryRecvError::Disconnected)));
}

#[test]
fn cleanup_host_disconnect_of_a_missing_room_does_nothing() {
    let mut state = AppState::new();
    let report = cleanup_host_disconnect(&mut state, ROOM);
    assert!(report.users.is_empty());
    assert!(report.notices.is_empty());
}

#[test]
fn cleanup_user_disconnect_twice_is_the_same_as_once() {
    let mut state = state_with_room();
    let (_host, mut host_box) = HostSession::start(&mut state, ROOM, UserId::new("u-1"));
    let _entry = UserSession::start(&mut state, ROOM, UserId::new("u-2"));
    let leave = cleanup_user_disconnect(&mut state, ROOM, &UserId::new("u-2"));
    assert_eq!(leave.outcome(), Delivery::Queued);
    assert_eq!(leave.event(), ToHostEvent::LeaveRoom);
    assert_eq!(leave.user_id(), &UserId::new("u-2"));
    assert!(!state.storage.is_user_in_room(ROOM, &UserId::new("u-2")));
    let leave = cleanup_user_disconnect(&mut state, ROOM, &UserId::new("u-2"));
    assert_eq!(leave.outcome(), Delivery::Queued);
    assert!(!state.storage.is_user_in_room(ROOM, &UserId::new("u-2")));
    assert!(state.storage.get_room(ROOM).is_some());
    host_box.try_recv().unwrap();
    assert_eq!(host_box.try_recv().unwrap(), ToHostMessage::leave_room(UserId::new("u-2")));
    assert_eq!(host_box.try_recv().unwrap(), ToHostMessage::leave_room(UserId::new("u-2")));
}

#[test]
fn host_frames_are_routed_by_their_event() {
    match route_host_frame(host_frame("MESSAGE", "u-2", "[1,2]"), true) {
        HostRoute::Send(message) => {
            assert_eq!(message, ToUserMessage::message(UserId::new("u-2"), json("[1,2]")));
        },
        other => panic!("not sent: {:?}", other),
    }
    match route_host_frame(host_frame("DISCONNECT", "u-2", "{\"why\":\"x\"}"), true) {
        HostRoute::Send(message) => {
            assert_eq!(
                message,
                ToUserMessage::disconnect(UserId::new("u-2"), DisconnectReason::Kicked)
            );
        },
        other => panic!("not sent: {:?}", other),
    }
    assert!(matches!(
        route_host_frame(host_frame("message", "u-2", "1"), true),
        HostRoute::UnknownEvent
    ));
    assert!(matches!(
        route_host_frame(host_frame("MESSAGE", "u-2", "1"), false),
        HostRoute::NotInRoom
    ));
    assert!(matches!(route_host_frame(host_frame("PING", "u-2", "1"), false), HostRoute::NotInRoom));
}

#[test]
fn host_frames_for_a_stranger_are_dropped() {
    let mut state = state_with_room();
    let (_host, _host_box) = HostSession::start(&mut state, ROOM, UserId::new("u-1"));
    let mut entry = UserSession::start(&mut state, ROOM, UserId::new("u-2"));
    assert!(matches!(
        handle_host_message(&state, ROOM, host_frame("MESSAGE", "u-3", "1")),
        HostRelay::NotInRoom
    ));
    assert!(matches!(
        handle_host_message(&state, ROOM, host_frame("JUMP", "u-2", "1")),
        HostRelay::UnknownEvent
    ));
    assert!(matches!(entry.receiver.try_recv(), Err(TryRecvError::Empty)));
}

#[test]
fn host_frames_for_a_member_without_a_mailbox_are_lost() {
    let mut state = state_with_room();
    state.storage.add_user_to_room(ROOM, UserId::new("u-2"));
    assert_eq!(
        host_sent(Some(handle_host_message(&state, ROOM, host_frame("MESSAGE", "u-2", "1")))),
        (ToUserEvent::Message, UserId::new("u-2"), None, Delivery::NoMailbox)
    );
}

#[test]
fn user_frames_are_routed_by_their_event() {
    let user = UserId::new("u-2");
    assert_eq!(
        route_user_frame(user_frame("MESSAGE", "\"hi\""), &user),
        Some(ToHostMessage::message(UserId::new("u-2"), json("\"hi\"")))
    );
    assert_eq!(route_user_frame(user_frame("DISCONNECT", "null"), &user), None);
    assert_eq!(route_user_frame(user_frame("Message", "null"), &user), None);
}

#[test]
fn user_frames_without_a_host_are_lost() {
    let state = state_with_room();
    assert_eq!(
        user_sent(Some(handle_user_message(
            &state,
            ROOM,
            &UserId::new("u-2"),
            user_frame("MESSAGE", "1")
        ))),
        (ToHostEvent::Message, UserId::new("u-2"), Delivery::NoMailbox)
    );
    assert!(matches!(
        handle_user_message(&state, ROOM, &UserId::new("u-2"), user_frame("LEAVE", "1")),
        UserRelay::UnknownEvent
    ));
}

#[test]
fn a_kick_carries_the_reason_kicked_whatever_the_frame_carries() {
    let mut state = state_with_room();
    let mut entry = UserSession::start(&mut state, ROOM, UserId::new("u-2"));
    let relay = handle_host_message(
        &state,
        ROOM,
        host_frame("DISCONNECT", "u-2", "{\"reason\":\"RoomClosed\"}"),
    );
    assert_eq!(
        host_sent(Some(relay)),
        (
            ToUserEvent::Disconnect,
            UserId::new("u-2"),
            Some(DisconnectReason::Kicked),
            Delivery::Queued
        )
    );
    assert_eq!(
        entry.receiver.try_recv().unwrap(),
        ToUserMessage::disconnect(UserId::new("u-2"), DisconnectReason::Kicked)
    );
    assert!(matches!(entry.receiver.try_recv(), Err(TryRecvError::Empty)));
    assert!(state.storage.is_user_in_room(ROOM, &UserId::new("u-2")));
}

#[test]
fn a_user_frame_reaches_the_host_under_the_name_of_the_session() {
    let mut state = state_with_room();
    let (_host, mut host_box) = HostSession::start(&mut state, ROOM, UserId::new("u-1"));
    let relay = handle_user_message(
        &state,
        ROOM,
        &UserId::new("u-2"),
        user_frame("MESSAGE", "{\"userId\":\"u-9\"}"),
    );
    assert_eq!(
        user_sent(Some(relay)),
        (ToHostEvent::Message, UserId::new("u-2"), Delivery::Queued)
    );
    assert_eq!(
        host_box.try_recv().unwrap(),
        ToHostMessage::message(UserId::new("u-2"), json("{\"userId\":\"u-9\"}"))
    );
    assert!(matches!(host_box.try_recv(), Err(TryRecvError::Empty)));
}

#[test]
fn host_session_closes_on_its_own_disconnect() {
    let mut state = state_with_room();
    let (mut host, _host_box) = HostSession::start(&mut state, ROOM, UserId::new("u-1"));
    let step = host.on_mailbox(Some(ToHostMessage::disconnect(
        UserId::new("u-2"),
        DisconnectReason::UserClosed,
    )));
    assert!(matches!(step, HostMailStep::Forward(_)));
    assert!(!host.is_closing());
    let step = host.on_mailbox(Some(ToHostMessage::disconnect(
        UserId::new("u-1"),
        DisconnectReason::RoomClosed,
    )));
    match step {
        HostMailStep::ForwardThenClose(message) => {
            assert_eq!(
                message,
                ToHostMessage::disconnect(UserId::new("u-1"), DisconnectReason::RoomClosed)
            );
        },
        other => panic!("not closed: {:?}", other),
    }
    assert!(host.is_closing());
    assert!(matches!(
        host.on_mailbox(Some(ToHostMessage::join_room(UserId::new("u-2")))),
        HostMailStep::Close
    ));
}

#[test]
fn host_session_keeps_serving_on_a_message_from_the_host_itself() {
    let mut state = state_with_room();
    let (mut host, _host_box) = HostSession::start(&mut state, ROOM, UserId::new("u-1"));
    let step = host.on_mailbox(Some(ToHostMessage::join_room(UserId::new("u-1"))));
    assert!(matches!(step, HostMailStep::Forward(_)));
    assert!(!host.is_closing());
}

#[test]
fn host_session_closes_when_its_mailbox_is_closed() {
    let mut state = state_with_room();
    let (mut host, _host_box) = HostSession::start(&mut state, ROOM, UserId::new("u-1"));
    assert!(matches!(host.on_mailbox(None), HostMailStep::Close));
    assert!(host.is_closing());
}

#[test]
fn host_session_closes_when_forwarding_fails() {
    let mut state = state_with_room();
    let (mut host, _host_box) = HostSession::start(&mut state, ROOM, UserId::new("u-1"));
    host.on_forward_result(true);
    assert!(!host.is_closing());
    host.on_forward_result(false);
    assert!(host.is_closing());
    host.on_forward_result(true);
    assert!(host.is_closing());
}

#[test]
fn host_session_reacts_to_each_socket_event() {
    let mut state = state_with_room();
    for (event, closes) in [
        (SocketEvent::Malformed, false),
        (SocketEvent::Other, false),
        (SocketEvent::Pong, false),
        (SocketEvent::Close, true),
        (SocketEvent::End, true),
        (SocketEvent::Error, true),
    ] {
        let (mut host, _host_box) = HostSession::start(&mut state, ROOM, UserId::new("u-1"));
        assert!(host.on_socket(&state, event).is_none());
        assert_eq!(host.is_closing(), closes);
    }
}

#[test]
fn a_closing_host_session_passes_over_frames() {
    let mut state = state_with_room();
    let (mut host, _host_box) = HostSession::start(&mut state, ROOM, UserId::new("u-1"));
    let mut entry = UserSession::start(&mut state, ROOM, UserId::new("u-2"));
    host.on_socket(&state, SocketEvent::Close);
    assert!(host
        .on_socket(&state, SocketEvent::Frame(host_frame("MESSAGE", "u-2", "1")))
        .is_none());
    assert!(matches!(entry.receiver.try_recv(), Err(TryRecvError::Empty)));
    assert_eq!(host.on_tick(0), TickStep::Expired);
}

#[test]
fn host_session_pings_and_times_out() {
    let mut state = state_with_room();
    let (mut host, _host_box) = HostSession::start(&mut state, ROOM, UserId::new("u-1"));
    assert_eq!(host.on_tick(30_000), TickStep::Ping);
    host.on_ping_result(true, 30_000);
    assert_eq!(host.pong_deadline(), Some(40_000));
    assert!(host.on_socket(&state, SocketEvent::Pong).is_none());
    assert_eq!(host.pong_deadline(), None);
    assert_eq!(host.on_tick(60_000), TickStep::Ping);
    host.on_ping_result(true, 60_001);
    assert_eq!(host.pong_deadline(), Some(70_001));
    assert_eq!(host.on_tick(70_001), TickStep::Ping);
    host.on_ping_result(true, 70_001);
    assert_eq!(host.pong_deadline(), Some(80_001));
    assert_eq!(host.on_tick(90_000), TickStep::Expired);
    assert!(host.is_closing());
    host.on_ping_result(true, 90_000);
    assert_eq!(host.pong_deadline(), Some(80_001));
}

#[test]
fn host_session_closes_when_the_ping_fails() {
    let mut state = state_with_room();
    let (mut host, _host_box) = HostSession::start(&mut state, ROOM, UserId::new("u-1"));
    assert_eq!(host.on_tick(30_000), TickStep::Ping);
    host.on_ping_result(false, 30_000);
    assert!(host.is_closing());
    assert_eq!(host.pong_deadline(), None);
}

#[test]
fn user_session_closes_on_any_disconnect() {
    let mut state = state_with_room();
    for reason in [
        DisconnectReason::Kicked,
        DisconnectReason::RoomClosed,
        DisconnectReason::UserClosed,
        DisconnectReason::NewConnection,
        DisconnectReason::PingPong,
    ] {
        let mut entry = UserSession::start(&mut state, ROOM, UserId::new("u-2"));
        let step = entry.session.on_mailbox(Some(ToUserMessage::disconnect(UserId::new("u-7"), reason)));
        assert!(matches!(step, UserMailStep::ForwardThenClose(_)));
        assert!(entry.session.is_closing());
        assert!(matches!(
            entry.session.on_mailbox(Some(ToUserMessage::message(UserId::new("u-2"), json("1")))),
            UserMailStep::Close
        ));
    }
}

#[test]
fn user_session_closes_when_its_mailbox_is_closed() {
    let mut state = state_with_room();
    let mut entry = UserSession::start(&mut state, ROOM, UserId::new("u-2"));
    assert!(matches!(entry.session.on_mailbox(None), UserMailStep::Close));
    assert!(entry.session.is_closing());
}

#[test]
fn user_session_reacts_to_each_socket_event() {
    let mut state = state_with_room();
    for (event, closes) in [
        (SocketEvent::Malformed, false),
        (SocketEvent::Other, false),
        (SocketEvent::Pong, false),
        (SocketEvent::Close, true),
        (SocketEvent::End, true),
        (SocketEvent::Error, true),
    ] {
        let mut entry = UserSession::start(&mut state, ROOM, UserId::new("u-2"));
        assert!(entry.session.on_socket(&state, event).is_none());
        assert_eq!(entry.session.is_closing(), closes);
    }
}

#[test]
fn user_session_passes_over_unknown_events() {
    let mut state = state_with_room();
    let (_host, mut host_box) = HostSession::start(&mut state, ROOM, UserId::new("u-1"));
    let mut entry = UserSession::start(&mut state, ROOM, UserId::new("u-2"));
    host_box.try_recv().unwrap();
    let relay = entry.session.on_socket(&state, SocketEvent::Frame(user_frame("DISCONNECT", "null")));
    assert!(matches!(relay, Some(UserRelay::UnknownEvent)));
    assert!(!entry.session.is_closing());
    assert!(matches!(host_box.try_recv(), Err(TryRecvError::Empty)));
}

#[test]
fn user_session_pings_and_times_out() {
    let mut state = state_with_room();
    let mut entry = UserSession::start(&mut state, ROOM, UserId::new("u-2"));
    assert_eq!(entry.session.on_tick(30_000), TickStep::Ping);
    entry.session.on_ping_result(true, 30_000);
    assert_eq!(entry.session.pong_deadline(), Some(40_000));
    assert_eq!(entry.session.on_tick(40_000), TickStep::Ping);
    entry.session.on_ping_result(true, 40_000);
    assert_eq!(entry.session.pong_deadline(), Some(50_000));
    assert_eq!(entry.session.on_tick(50_001), TickStep::Expired);
    assert!(entry.session.is_closing());
    assert_eq!(entry.session.on_tick(50_002), TickStep::Expired);
}

#[test]
fn user_session_closes_when_the_ping_fails() {
    let mut state = state_with_room();
    let mut entry = UserSession::start(&mut state, ROOM, UserId::new("u-2"));
    entry.session.on_ping_result(false, 30_000);
    assert!(entry.session.is_closing());
    entry.session.on_ping_result(true, 60_000);
    assert_eq!(entry.session.pong_deadline(), None);
}

#[test]
fn membership_follows_the_session() {
    let mut state = state_with_room();
    assert!(!state.storage.is_user_in_room(ROOM, &UserId::new("u-2")));
    let entry = UserSession::start(&mut state, ROOM, UserId::new("u-2"));
    assert!(state.storage.is_user_in_room(ROOM, &UserId::new("u-2")));
    entry.session.finish(&mut state);
    assert!(!state.storage.is_user_in_room(ROOM, &UserId::new("u-2")));
    assert_eq!(
        to_user(&state, 
            &UserId::new("u-2"),
            ROOM,
            ToUserMessage::message(UserId::new("u-2"), json("1"))
        ),
        Delivery::NoMailbox
    );
}
