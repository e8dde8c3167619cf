use vstd::prelude::*;

verus! {

/// What a frame sent to a room's host is about.
#[derive(Clone, Copy, Debug, PartialEq, Eq, Structural)]
pub enum ToHostEvent {
    JoinRoom,
    LeaveRoom,
    Message,
    Disconnect,
}

/// What a frame sent to a room's user is about.
#[derive(Clone, Copy, Debug, PartialEq, Eq, Structural)]
pub enum ToUserEvent {
    Message,
    Disconnect,
}

/// An event of either direction.
#[derive(Clone, Copy, Debug, PartialEq, Eq, Structural)]
pub enum Event {
    ToHost(ToHostEvent),
    ToUser(ToUserEvent),
}

/// Why a session is told to end.
#[derive(Clone, Copy, Debug, PartialEq, Eq, Structural)]
pub enum DisconnectReason {
    Kicked,
    RoomClosed,
    UserClosed,
    NewConnection,
    PingPong,
}

} // verus!
