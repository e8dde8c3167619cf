use crate::api::dto::WsQueryParams;
use crate::auth::{has_role, roles_satisfy, Role, RoleView};
use crate::domain::user::UserId;
use crate::text::same_text;
use crate::AppState;
use vstd::prelude::*;

pub mod host;
pub mod user;

verus! {

/// Milliseconds between two pings of a session.
pub const PING_INTERVAL_MS: u64 = 30_000;

/// Milliseconds that a session waits for the pong after a ping.
pub const PONG_TIMEOUT_MS: u64 = 10_000;

/// The event name of a frame that carries application data.
pub const EVENT_MESSAGE: &'static str = "MESSAGE";

/// The event name of a frame by which a host ends a user's session.
pub const EVENT_DISCONNECT: &'static str = "DISCONNECT";

/// What a socket handed to its session.
#[derive(Debug)]
pub enum SocketEvent<Frame> {
    /// A text frame that reads as a frame of this side.
    Frame(Frame),
    /// A text frame that does not.
    Malformed,
    /// The answer to a ping.
    Pong,
    /// A close frame.
    Close,
    /// The end of the stream.
    End,
    /// A failure of the socket.
    Error,
    /// Any other frame.
    Other,
}

/// What a session does at a tick of its ping timer.
#[derive(Clone, Copy, Debug, PartialEq, Eq, Structural)]
pub enum TickStep {
    /// Send a ping, and report how that went.
    Ping,
    /// Send nothing: the session is closing.
    Expired,
}

/// Whether the pong awaited by `deadline` is overdue at `now`.
pub open spec fn pong_overdue(deadline: Option<u64>, now: u64) -> bool {
    match deadline {
        Some(limit) => now > limit,
        None => false,
    }
}

/// The deadline of the pong for a ping sent at `now`: the timeout later, or
/// the last moment that can be told.
pub open spec fn pong_deadline_after(now: u64) -> u64 {
    if now + PONG_TIMEOUT_MS <= u64::MAX {
        (now + PONG_TIMEOUT_MS) as u64
    } else {
        u64::MAX
    }
}

/// The liveness probe of a session: the deadline of the pong it awaits, in
/// milliseconds on the session's clock.
#[derive(Clone, Copy, Debug, PartialEq, Eq, Structural)]
pub struct Heartbeat {
    pub pong_deadline: Option<u64>,
}

impl Heartbeat {
    /// A probe that awaits no pong.
    pub fn new() -> (result: Self)
        ensures
            result.pong_deadline is None,
    {
        Heartbeat { pong_deadline: None }
    }

    /// Whether the awaited pong is overdue at `now`.
    pub fn overdue(&self, now: u64) -> (result: bool)
        ensures
            result == pong_overdue(self.pong_deadline, now),
    {
        match self.pong_deadline {
            Some(limit) => now > limit,
            None => false,
        }
    }

    /// Takes note of a pong: none is awaited any more.
    pub fn clear(&mut self)
        ensures
            final(self).pong_deadline is None,
    {
        self.pong_deadline = None;
    }

    /// Takes note of a ping sent at `now`: its pong is awaited.
    pub fn arm(&mut self, now: u64)
        ensures
            final(self).pong_deadline == Some(pong_deadline_after(now)),
    {
        self.pong_deadline = Some(now.saturating_add(PONG_TIMEOUT_MS));
    }
}

/// Why a request for a session is turned down.
#[derive(Clone, Copy, Debug, PartialEq, Eq, Structural)]
pub enum Rejection {
    RoomNotFound,
    HostRoleRequired,
    NotRoomHost,
    UserRoleRequired,
    InvalidConnectionType,
}

impl Rejection {
    /// The status code of the answer.
    pub fn status(&self) -> (code: u16)
        ensures
            code == match self {
                Rejection::RoomNotFound => 404u16,
                Rejection::HostRoleRequired => 403u16,
                Rejection::NotRoomHost => 403u16,
                Rejection::UserRoleRequired => 403u16,
                Rejection::InvalidConnectionType => 400u16,
            },
    {
        match self {
            Rejection::RoomNotFound => 404,
            Rejection::HostRoleRequired => 403,
            Rejection::NotRoomHost => 403,
            Rejection::UserRoleRequired => 403,
            Rejection::InvalidConnectionType => 400,
        }
    }

    /// The text of the answer.
    pub fn message(&self) -> (text: &'static str)
        ensures
            text@ == match self {
                Rejection::RoomNotFound => "Room not found"@,
                Rejection::HostRoleRequired => "Host role required"@,
                Rejection::NotRoomHost => "Not the room host"@,
                Rejection::UserRoleRequired => "User role required"@,
                Rejection::InvalidConnectionType => "Invalid connection type"@,
            },
    {
        match self {
            Rejection::RoomNotFound => "Room not found",
            Rejection::HostRoleRequired => "Host role required",
            Rejection::NotRoomHost => "Not the room host",
            Rejection::UserRoleRequired => "User role required",
            Rejection::InvalidConnectionType => "Invalid connection type",
        }
    }
}

/// What is decided of a request for a session.
#[derive(Clone, Copy, PartialEq, Eq, Structural)]
pub enum Decision {
    Reject(Rejection),
    Host,
    User,
}

/// What is decided of a request for a session of the side `connection_type`
/// by the principal `subject` holding `roles`, where `host` is the host of
/// the room asked for, or `None` if there is no such room.
pub open spec fn decide(
    host: Option<Seq<char>>,
    subject: Seq<char>,
    roles: Seq<Role>,
    connection_type: Seq<char>,
) -> Decision {
    if host is None {
        Decision::Reject(Rejection::RoomNotFound)
    } else if connection_type == "host"@ {
        if !roles_satisfy(roles, RoleView::Host) {
            Decision::Reject(Rejection::HostRoleRequired)
        } else if host != Some(subject) {
            Decision::Reject(Rejection::NotRoomHost)
        } else {
            Decision::Host
        }
    } else if connection_type == "user"@ {
        if !roles_satisfy(roles, RoleView::User) {
            Decision::Reject(Rejection::UserRoleRequired)
        } else {
            Decision::User
        }
    } else {
        Decision::Reject(Rejection::InvalidConnectionType)
    }
}

/// The host of the room under `room`, if the registry holds one.
pub open spec fn host_of(registry: crate::storage::RegistryView, room: Seq<char>) -> Option<
    Seq<char>,
> {
    if registry.has_room(room) {
        Some(registry.rooms[room].host_id)
    } else {
        None
    }
}

/// The answer to a request for a session: a rejection, or the room and the
/// principal of the session to run.
#[derive(Debug)]
pub enum Upgrade {
    Rejected(Rejection),
    Host { room_id: String, host_id: UserId },
    User { room_id: String, user_id: UserId },
}

/// What an answer decides.
pub open spec fn decision_of(upgrade: Upgrade) -> Decision {
    match upgrade {
        Upgrade::Rejected(rejection) => Decision::Reject(rejection),
        Upgrade::Host { .. } => Decision::Host,
        Upgrade::User { .. } => Decision::User,
    }
}

/// Decides a request for a session by the principal `subject` holding
/// `roles`, for the room and the side that `params` names.
pub fn websocket_handler(
    state: &AppState,
    subject: &str,
    roles: &[Role],
    params: &WsQueryParams,
) -> (upgrade: Upgrade)
    ensures
        decision_of(upgrade) == decide(
            host_of(state@.registry, params.room_id@),
            subject@,
            roles@,
            params.connection_type@,
        ),
        match upgrade {
            Upgrade::Rejected(_) => true,
            Upgrade::Host { room_id, host_id } => room_id@ == params.room_id@ && host_id@ == subject@,
            Upgrade::User { room_id, user_id } => room_id@ == params.room_id@ && user_id@ == subject@,
        },
{
    let user_id = UserId::new(subject);
    let room = match state.storage.get_room(params.room_id.as_str()) {
        Some(room) => room,
        None => {
            return Upgrade::Rejected(Rejection::RoomNotFound);
        },
    };
    if same_text(params.connection_type.as_str(), "host") {
        if !has_role(roles, &Role::Host) {
            return Upgrade::Rejected(Rejection::HostRoleRequired);
        }
        if !room.is_host(&user_id) {
            return Upgrade::Rejected(Rejection::NotRoomHost);
        }
        Upgrade::Host { room_id: params.room_id.clone(), host_id: user_id }
    } else if same_text(params.connection_type.as_str(), "user") {
        if !has_role(roles, &Role::User) {
            return Upgrade::Rejected(Rejection::UserRoleRequired);
        }
        Upgrade::User { room_id: params.room_id.clone(), user_id }
    } else {
        Upgrade::Rejected(Rejection::InvalidConnectionType)
    }
}

} // verus!
