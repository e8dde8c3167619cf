use crate::domain::event::{DisconnectReason, ToUserEvent};
use crate::domain::message::{
    ToHostMessage, ToHostMessageView, ToUserMessage, ToUserMessageView, UserWebSocketMessage,
};
use crate::domain::user::UserId;
use crate::message_bus::{FabricView, HostOffer, UserOffer};
use crate::text::same_text;
use crate::websocket::{
    pong_deadline_after, pong_overdue, Heartbeat, SocketEvent, TickStep, EVENT_MESSAGE,
};
use crate::{AppState, SystemView};
use tokio::sync::mpsc::Receiver;
use vstd::prelude::*;

verus! {

/// Where a user session stands. It moves once, from joined to closing.
#[derive(Clone, Copy, Debug, PartialEq, Eq, Structural)]
pub enum UserPhase {
    Joined,
    Closing,
}

/// A user session as plain values.
pub struct UserSessionView {
    pub room: Seq<char>,
    pub user: Seq<char>,
    pub pong_deadline: Option<u64>,
    pub phase: UserPhase,
}

/// The session of a room's user: what it decides between two waits.
#[derive(Debug)]
pub struct UserSession {
    room_id: String,
    user_id: UserId,
    heartbeat: Heartbeat,
    phase: UserPhase,
}

impl View for UserSession {
    type V = UserSessionView;

    closed spec fn view(&self) -> UserSessionView {
        UserSessionView {
            room: self.room_id@,
            user: self.user_id@,
            pong_deadline: self.heartbeat.pong_deadline,
            phase: self.phase,
        }
    }
}

/// What became of a frame from the user's socket.
pub enum UserRelay {
    /// It was dropped: its event has no meaning.
    UnknownEvent,
    /// Its data was offered to the host's mailbox: the receipt for that
    /// offer.
    Sent(HostOffer),
}

/// What the session does with what its mailbox handed it.
#[derive(Debug)]
pub enum UserMailStep {
    /// Send the message on the socket, whatever comes of it.
    Forward(ToUserMessage),
    /// Send the message on the socket, whatever comes of it; the session is
    /// closing.
    ForwardThenClose(ToUserMessage),
    /// Send nothing: the session is closing.
    Close,
}

/// A user session that has just started: the session, the consumer end of
/// its mailbox, whether the user was newly made a member, the receipt for
/// the notice to the mailbox it displaced, if any, and the receipt for the
/// notice to the host that the user has joined.
pub struct UserEntry {
    pub session: UserSession,
    pub receiver: Receiver<ToUserMessage>,
    pub added: bool,
    pub displaced: Option<UserOffer>,
    pub join_notice: HostOffer,
}

/// Whether `relay` is what becomes of `frame`, sent by `user`, a user of
/// the room under `room`: its data goes to the host as a message from that
/// user, whatever user the frame may name.
pub open spec fn user_relay_fits(
    relay: UserRelay,
    system: SystemView,
    room: Seq<char>,
    user: Seq<char>,
    frame: UserWebSocketMessage,
) -> bool {
    match relay {
        UserRelay::UnknownEvent => frame.event@ != EVENT_MESSAGE@,
        UserRelay::Sent(offer) => {
            &&& frame.event@ == EVENT_MESSAGE@
            &&& offer.attests(
                system.fabric,
                room,
                ToHostMessageView::message(user, frame.message),
            )
        },
    }
}

/// The system after the session of `user` in the room under `room` has
/// started: with the user's membership, if the room is there, and with the
/// user's mailbox.
pub open spec fn user_joined(system: SystemView, room: Seq<char>, user: Seq<char>) -> SystemView {
    SystemView {
        registry: system.registry.with_member(room, user),
        fabric: FabricView {
            hosts: system.fabric.hosts,
            users: system.fabric.users.insert((user, room)),
        },
    }
}

/// The system after the teardown of the session of `user` in the room under
/// `room`: without the user's membership and without the user's mailbox.
pub open spec fn user_torn_down(system: SystemView, room: Seq<char>, user: Seq<char>) -> SystemView {
    SystemView {
        registry: system.registry.without_member(room, user),
        fabric: FabricView {
            hosts: system.fabric.hosts,
            users: system.fabric.users.remove((user, room)),
        },
    }
}

/// What a frame from the socket of `user_id` asks to offer to the host, if
/// anything.
pub fn route_user_frame(frame: UserWebSocketMessage, user_id: &UserId) -> (route: Option<
    ToHostMessage,
>)
    ensures
        match route {
            Some(message) => {
                &&& frame.event@ == EVENT_MESSAGE@
                &&& message.fits_schema()
                &&& message@ == ToHostMessageView::message(user_id@, frame.message)
            },
            None => frame.event@ != EVENT_MESSAGE@,
        },
{
    if same_text(frame.event.as_str(), EVENT_MESSAGE) {
        Some(ToHostMessage::message(user_id.clone(), frame.message))
    } else {
        None
    }
}

/// Acts on a frame from the socket of `user_id`, a user of the room under
/// `room_id`: relays its data to the room's host.
pub fn handle_user_message(
    state: &AppState,
    room_id: &str,
    user_id: &UserId,
    frame: UserWebSocketMessage,
) -> (relay: UserRelay)
    ensures
        user_relay_fits(relay, state@, room_id@, user_id@, frame),
{
    match route_user_frame(frame, user_id) {
        Some(message) => UserRelay::Sent(state.message_bus.send_to_host(room_id, message)),
        None => UserRelay::UnknownEvent,
    }
}

/// Tears down after the session of `user_id` in the room under `room_id`:
/// ends the membership, closes the user's mailbox, and offers the host a
/// notice that the user has left.
pub fn cleanup_user_disconnect(state: &mut AppState, room_id: &str, user_id: &UserId) -> (leave_notice:
    HostOffer)
    requires
        old(state).well_formed(),
    ensures
        final(state).well_formed(),
        final(state)@ == user_torn_down(old(state)@, room_id@, user_id@),
        leave_notice.attests(
            final(state)@.fabric,
            room_id@,
            ToHostMessageView::leave_room(user_id@),
        ),
{
    state.storage.remove_user_from_room(room_id, user_id);
    state.message_bus.unregister_user(user_id, room_id);
    state.message_bus.send_to_host(room_id, ToHostMessage::leave_room(user_id.clone()))
}

impl UserSession {
    /// Starts the session of `user_id` in the room under `room_id`: makes
    /// the user a member, opens the user's mailbox in place of the one that
    /// stood under its key, and offers the host a notice that the user has
    /// joined.
    pub fn start(state: &mut AppState, room_id: &str, user_id: UserId) -> (entry: UserEntry)
        requires
            old(state).well_formed(),
        ensures
            final(state).well_formed(),
            final(state)@ == user_joined(old(state)@, room_id@, user_id@),
            entry.session@ == (UserSessionView {
                room: room_id@,
                user: user_id@,
                pong_deadline: None,
                phase: UserPhase::Joined,
            }),
            entry.added == {
                &&& old(state)@.registry.has_room(room_id@)
                &&& !old(state)@.registry.is_member(room_id@, user_id@)
            },
            entry.displaced is Some <==> old(state)@.fabric.has_user(user_id@, room_id@),
            entry.displaced matches Some(offer) ==> offer.attests(
                old(state)@.fabric,
                user_id@,
                room_id@,
                ToUserMessageView::disconnect(user_id@, DisconnectReason::NewConnection),
            ),
            entry.join_notice.attests(
                final(state)@.fabric,
                room_id@,
                ToHostMessageView::join_room(user_id@),
            ),
    {
        let added = state.storage.add_user_to_room(room_id, user_id.clone());
        let registration = state.message_bus.register_user(&user_id, room_id);
        let join_notice = state.message_bus.send_to_host(
            room_id,
            ToHostMessage::join_room(user_id.clone()),
        );
        let session = UserSession {
            room_id: room_id.to_owned(),
            user_id,
            heartbeat: Heartbeat::new(),
            phase: UserPhase::Joined,
        };
        UserEntry {
            session,
            receiver: registration.receiver,
            added,
            displaced: registration.displaced,
            join_notice,
        }
    }

    /// The key of the session's room.
    pub fn room_id(&self) -> (room_id: &str)
        ensures
            room_id@ == self@.room,
    {
        self.room_id.as_str()
    }

    /// The session's user.
    pub fn user_id(&self) -> (user_id: &UserId)
        ensures
            user_id@ == self@.user,
    {
        &self.user_id
    }

    /// The deadline of the pong that the session awaits, if it awaits one.
    pub fn pong_deadline(&self) -> (deadline: Option<u64>)
        ensures
            deadline == self@.pong_deadline,
    {
        self.heartbeat.pong_deadline
    }

    /// Whether the session is closing.
    pub fn is_closing(&self) -> (closing: bool)
        ensures
            closing == (self@.phase is Closing),
    {
        match self.phase {
            UserPhase::Joined => false,
            UserPhase::Closing => true,
        }
    }

    /// Decides what to do with what the mailbox handed over: a message, or
    /// `None` once the mailbox is closed.
    pub fn on_mailbox(&mut self, mail: Option<ToUserMessage>) -> (step: UserMailStep)
        ensures
            final(self)@.room == old(self)@.room,
            final(self)@.user == old(self)@.user,
            final(self)@.pong_deadline == old(self)@.pong_deadline,
            match step {
                UserMailStep::Forward(message) => {
                    &&& old(self)@.phase is Joined
                    &&& mail == Some(message)
                    &&& message.event != ToUserEvent::Disconnect
                    &&& final(self)@.phase is Joined
                },
                UserMailStep::ForwardThenClose(message) => {
                    &&& old(self)@.phase is Joined
                    &&& mail == Some(message)
                    &&& message.event == ToUserEvent::Disconnect
                    &&& final(self)@.phase is Closing
                },
                UserMailStep::Close => {
                    &&& old(self)@.phase is Closing || mail is None
                    &&& final(self)@.phase is Closing
                },
            },
    {
        if self.is_closing() {
            return UserMailStep::Close;
        }
        match mail {
            Some(message) => {
                match message.event {
                    ToUserEvent::Disconnect => {
                        self.phase = UserPhase::Closing;
                        UserMailStep::ForwardThenClose(message)
                    },
                    ToUserEvent::Message => UserMailStep::Forward(message),
                }
            },
            None => {
                self.phase = UserPhase::Closing;
                UserMailStep::Close
            },
        }
    }

    /// Acts on what the socket handed over. A frame that reads is relayed;
    /// a pong ends the wait for it; a close frame, the end of the stream or
    /// a failure closes the session; anything else is passed over.
    pub fn on_socket(&mut self, state: &AppState, event: SocketEvent<UserWebSocketMessage>) -> (relay:
        Option<UserRelay>)
        ensures
            final(self)@.room == old(self)@.room,
            final(self)@.user == old(self)@.user,
            old(self)@.phase is Closing ==> final(self)@ == old(self)@ && relay is None,
            old(self)@.phase is Joined ==> match event {
                SocketEvent::Frame(frame) => {
                    &&& final(self)@ == old(self)@
                    &&& relay matches Some(done)
                    &&& user_relay_fits(done, state@, old(self)@.room, old(self)@.user, frame)
                },
                SocketEvent::Pong => {
                    &&& relay is None
                    &&& final(self)@.phase is Joined
                    &&& final(self)@.pong_deadline is None
                },
                SocketEvent::Close | SocketEvent::End | SocketEvent::Error => {
                    &&& relay is None
                    &&& final(self)@.phase is Closing
                    &&& final(self)@.pong_deadline == old(self)@.pong_deadline
                },
                SocketEvent::Malformed | SocketEvent::Other => {
                    &&& relay is None
                    &&& final(self)@ == old(self)@
                },
            },
    {
        if self.is_closing() {
            return None;
        }
        match event {
            SocketEvent::Frame(frame) => Some(
                handle_user_message(state, self.room_id.as_str(), &self.user_id, frame),
            ),
            SocketEvent::Pong => {
                self.heartbeat.clear();
                None
            },
            SocketEvent::Close | SocketEvent::End | SocketEvent::Error => {
                self.phase = UserPhase::Closing;
                None
            },
            SocketEvent::Malformed | SocketEvent::Other => None,
        }
    }

    /// Decides what to do at a tick of the ping timer, at `now` on the
    /// session's clock: the session closes where the awaited pong is overdue,
    /// and else a ping is due.
    pub fn on_tick(&mut self, now: u64) -> (step: TickStep)
        ensures
            final(self)@.room == old(self)@.room,
            final(self)@.user == old(self)@.user,
            final(self)@.pong_deadline == old(self)@.pong_deadline,
            step == TickStep::Ping <==> old(self)@.phase is Joined && !pong_overdue(
                old(self)@.pong_deadline,
                now,
            ),
            final(self)@.phase == if step == TickStep::Ping {
                UserPhase::Joined
            } else {
                UserPhase::Closing
            },
    {
        if self.is_closing() || self.heartbeat.overdue(now) {
            self.phase = UserPhase::Closing;
            TickStep::Expired
        } else {
            TickStep::Ping
        }
    }

    /// Takes note of how sending a ping went, at `now` on the session's
    /// clock: the pong is awaited where it was sent, and the session closes
    /// where it was not.
    pub fn on_ping_result(&mut self, sent: bool, now: u64)
        ensures
            final(self)@.room == old(self)@.room,
            final(self)@.user == old(self)@.user,
            old(self)@.phase is Closing ==> final(self)@ == old(self)@,
            old(self)@.phase is Joined && sent ==> {
                &&& final(self)@.phase is Joined
                &&& final(self)@.pong_deadline == Some(pong_deadline_after(now))
            },
            old(self)@.phase is Joined && !sent ==> {
                &&& final(self)@.phase is Closing
                &&& final(self)@.pong_deadline == old(self)@.pong_deadline
            },
    {
        if self.is_closing() {
            return;
        }
        if sent {
            self.heartbeat.arm(now);
        } else {
            self.phase = UserPhase::Closing;
        }
    }

    /// Ends the session, whatever its phase, and tears down after it.
    pub fn finish(self, state: &mut AppState) -> (leave_notice: HostOffer)
        requires
            old(state).well_formed(),
        ensures
            final(state).well_formed(),
            final(state)@ == user_torn_down(old(state)@, self@.room, self@.user),
            leave_notice.attests(
                final(state)@.fabric,
                self@.room,
                ToHostMessageView::leave_room(self@.user),
            ),
    {
        cleanup_user_disconnect(state, self.room_id.as_str(), &self.user_id)
    }
}

} // verus!
