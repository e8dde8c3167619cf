use super::event::{DisconnectReason, ToHostEvent, ToUserEvent};
use super::user::UserId;
use vstd::prelude::*;

verus! {

/// Makes `serde_json::Value` known as a type whose inside is not looked into.
#[verifier::external_type_specification]
#[verifier::external_body]
pub struct ExJsonValue(serde_json::Value);

/// What a frame carries besides its event and its user.
#[derive(Debug, PartialEq)]
pub enum MessagePayload {
    /// Application data, relayed as it came and never looked into.
    Data(serde_json::Value),
    /// The reason of a disconnect, written on the wire as an object whose
    /// one field `reason` holds the reason's name.
    Reason(DisconnectReason),
}

/// The reason that a payload names, if it names one.
pub open spec fn reason_of(payload: Option<MessagePayload>) -> Option<DisconnectReason> {
    match payload {
        Some(MessagePayload::Reason(reason)) => Some(reason),
        _ => None,
    }
}

/// The application data that a payload carries, if it carries any.
pub open spec fn data_of(payload: Option<MessagePayload>) -> Option<serde_json::Value> {
    match payload {
        Some(MessagePayload::Data(data)) => Some(data),
        _ => None,
    }
}

/// The payload that names `reason`, or else carries `data`, or else nothing.
pub open spec fn payload_of(
    reason: Option<DisconnectReason>,
    data: Option<serde_json::Value>,
) -> Option<MessagePayload> {
    match reason {
        Some(reason) => Some(MessagePayload::Reason(reason)),
        None => match data {
            Some(data) => Some(MessagePayload::Data(data)),
            None => None,
        },
    }
}

/// A frame for a room's host.
#[derive(Debug, PartialEq)]
pub struct ToHostMessage {
    pub event: ToHostEvent,
    pub user_id: UserId,
    pub message: Option<MessagePayload>,
}

/// A frame for a room's host as plain values.
pub struct ToHostMessageView {
    pub event: ToHostEvent,
    pub user: Seq<char>,
    pub message: Option<MessagePayload>,
}

impl ToHostMessageView {
    /// The frame that tells the host that `user` has joined.
    pub open spec fn join_room(user: Seq<char>) -> Self {
        ToHostMessageView { event: ToHostEvent::JoinRoom, user, message: None }
    }

    /// The frame that tells the host that `user` has left.
    pub open spec fn leave_room(user: Seq<char>) -> Self {
        ToHostMessageView { event: ToHostEvent::LeaveRoom, user, message: None }
    }

    /// The frame that relays `payload` from `user` to the host.
    pub open spec fn message(user: Seq<char>, payload: serde_json::Value) -> Self {
        ToHostMessageView {
            event: ToHostEvent::Message,
            user,
            message: Some(MessagePayload::Data(payload)),
        }
    }

    /// The frame that tells the host that the session of `user` ends, and why.
    pub open spec fn disconnect(user: Seq<char>, reason: DisconnectReason) -> Self {
        ToHostMessageView {
            event: ToHostEvent::Disconnect,
            user,
            message: Some(MessagePayload::Reason(reason)),
        }
    }
}

impl View for ToHostMessage {
    type V = ToHostMessageView;

    open spec fn view(&self) -> ToHostMessageView {
        ToHostMessageView { event: self.event, user: self.user_id@, message: self.message }
    }
}

impl ToHostMessage {
    /// Whether the frame is one that the host's side of the wire describes:
    /// a join or a leave carries nothing, a message carries data, and a
    /// disconnect carries its reason.
    pub open spec fn fits_schema(&self) -> bool {
        match self.event {
            ToHostEvent::JoinRoom | ToHostEvent::LeaveRoom => self.message is None,
            ToHostEvent::Message => self.message matches Some(MessagePayload::Data(_)),
            ToHostEvent::Disconnect => self.message matches Some(MessagePayload::Reason(_)),
        }
    }

    /// Tells the host that `user_id` has joined.
    pub fn join_room(user_id: UserId) -> (result: Self)
        ensures
            result.fits_schema(),
            result == (ToHostMessage { event: ToHostEvent::JoinRoom, user_id, message: None }),
    {
        ToHostMessage { event: ToHostEvent::JoinRoom, user_id, message: None }
    }

    /// Tells the host that `user_id` has left.
    pub fn leave_room(user_id: UserId) -> (result: Self)
        ensures
            result.fits_schema(),
            result == (ToHostMessage { event: ToHostEvent::LeaveRoom, user_id, message: None }),
    {
        ToHostMessage { event: ToHostEvent::LeaveRoom, user_id, message: None }
    }

    /// Relays `payload` from `user_id` to the host.
    pub fn message(user_id: UserId, payload: serde_json::Value) -> (result: Self)
        ensures
            result.fits_schema(),
            result == (ToHostMessage {
                event: ToHostEvent::Message,
                user_id,
                message: Some(MessagePayload::Data(payload)),
            }),
    {
        ToHostMessage {
            event: ToHostEvent::Message,
            user_id,
            message: Some(MessagePayload::Data(payload)),
        }
    }

    /// Tells the host that the session of `user_id` ends, and why.
    pub fn disconnect(user_id: UserId, reason: DisconnectReason) -> (result: Self)
        ensures
            result.fits_schema(),
            result == (ToHostMessage {
                event: ToHostEvent::Disconnect,
                user_id,
                message: Some(MessagePayload::Reason(reason)),
            }),
    {
        ToHostMessage {
            event: ToHostEvent::Disconnect,
            user_id,
            message: Some(MessagePayload::Reason(reason)),
        }
    }
}

/// A frame for a room's user.
#[derive(Debug, PartialEq)]
pub struct ToUserMessage {
    pub event: ToUserEvent,
    pub user_id: UserId,
    pub message: Option<MessagePayload>,
}

/// A frame for a room's user as plain values.
pub struct ToUserMessageView {
    pub event: ToUserEvent,
    pub user: Seq<char>,
    pub message: Option<MessagePayload>,
}

impl ToUserMessageView {
    /// The frame that relays `payload` from the host to `user`.
    pub open spec fn message(user: Seq<char>, payload: serde_json::Value) -> Self {
        ToUserMessageView {
            event: ToUserEvent::Message,
            user,
            message: Some(MessagePayload::Data(payload)),
        }
    }

    /// The frame that tells `user` that its session ends, and why.
    pub open spec fn disconnect(user: Seq<char>, reason: DisconnectReason) -> Self {
        ToUserMessageView {
            event: ToUserEvent::Disconnect,
            user,
            message: Some(MessagePayload::Reason(reason)),
        }
    }
}

impl View for ToUserMessage {
    type V = ToUserMessageView;

    open spec fn view(&self) -> ToUserMessageView {
        ToUserMessageView { event: self.event, user: self.user_id@, message: self.message }
    }
}

impl ToUserMessage {
    /// Whether the frame is one that the user's side of the wire describes:
    /// a message carries data, and a disconnect carries its reason.
    pub open spec fn fits_schema(&self) -> bool {
        match self.event {
            ToUserEvent::Message => self.message matches Some(MessagePayload::Data(_)),
            ToUserEvent::Disconnect => self.message matches Some(MessagePayload::Reason(_)),
        }
    }

    /// Relays `payload` from the host to `user_id`.
    pub fn message(user_id: UserId, payload: serde_json::Value) -> (result: Self)
        ensures
            result.fits_schema(),
            result == (ToUserMessage {
                event: ToUserEvent::Message,
                user_id,
                message: Some(MessagePayload::Data(payload)),
            }),
    {
        ToUserMessage {
            event: ToUserEvent::Message,
            user_id,
            message: Some(MessagePayload::Data(payload)),
        }
    }

    /// Tells `user_id` that its session ends, and why.
    pub fn disconnect(user_id: UserId, reason: DisconnectReason) -> (result: Self)
        ensures
            result.fits_schema(),
            result == (ToUserMessage {
                event: ToUserEvent::Disconnect,
                user_id,
                message: Some(MessagePayload::Reason(reason)),
            }),
    {
        ToUserMessage {
            event: ToUserEvent::Disconnect,
            user_id,
            message: Some(MessagePayload::Reason(reason)),
        }
    }
}

/// A frame that a user's socket sent, once read.
#[derive(Debug, PartialEq)]
pub struct UserWebSocketMessage {
    pub event: String,
    pub message: serde_json::Value,
}

/// A frame that a host's socket sent, once read.
#[derive(Debug, PartialEq)]
pub struct HostWebSocketMessage {
    pub event: String,
    pub user_id: UserId,
    pub message: serde_json::Value,
}

} // verus!
