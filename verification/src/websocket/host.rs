use crate::domain::event::{DisconnectReason, ToHostEvent};
use crate::domain::message::{
    HostWebSocketMessage, ToHostMessage, ToUserMessage, ToUserMessageView,
};
use crate::domain::user::UserId;
use crate::message_bus::UserOffer;
use crate::notices::all_notified;
use crate::storage::user_texts;
use crate::text::same_text;
use crate::websocket::{
    pong_deadline_after, pong_overdue, Heartbeat, SocketEvent, TickStep, EVENT_DISCONNECT,
    EVENT_MESSAGE,
};
use crate::{AppState, SystemView};
use tokio::sync::mpsc::Receiver;
use vstd::prelude::*;

verus! {

/// Where a host session stands. It moves once, from serving to closing.
#[derive(Clone, Copy, Debug, PartialEq, Eq, Structural)]
pub enum HostPhase {
    Serving,
    Closing,
}

/// A host session as plain values.
pub struct HostSessionView {
    pub room: Seq<char>,
    pub host: Seq<char>,
    pub pong_deadline: Option<u64>,
    pub phase: HostPhase,
}

/// The session of a room's host: what it decides between two waits.
#[derive(Debug)]
pub struct HostSession {
    room_id: String,
    host_id: UserId,
    heartbeat: Heartbeat,
    phase: HostPhase,
}

impl View for HostSession {
    type V = HostSessionView;

    closed spec fn view(&self) -> HostSessionView {
        HostSessionView {
            room: self.room_id@,
            host: self.host_id@,
            pong_deadline: self.heartbeat.pong_deadline,
            phase: self.phase,
        }
    }
}

/// What a frame from the host's socket asks for.
#[derive(Debug)]
pub enum HostRoute {
    /// Nothing: the user it names is no member of the room.
    NotInRoom,
    /// Nothing: its event has no meaning.
    UnknownEvent,
    /// To offer this message to the mailbox of the user it names.
    Send(ToUserMessage),
}

/// What became of a frame from the host's socket.
pub enum HostRelay {
    /// It was dropped: the user it names is no member of the room.
    NotInRoom,
    /// It was dropped: its event has no meaning.
    UnknownEvent,
    /// What it asks for was offered to the mailbox of the user it names:
    /// the receipt for that offer.
    Sent(UserOffer),
}

/// What the session does with what its mailbox handed it.
#[derive(Debug)]
pub enum HostMailStep {
    /// Send the message on the socket and report how that went.
    Forward(ToHostMessage),
    /// Send the message on the socket, whatever comes of it; the session is
    /// closing.
    ForwardThenClose(ToHostMessage),
    /// Send nothing: the session is closing.
    Close,
}

/// What the teardown of a host session did: who the room's members were, in
/// the order in which they were notified, and the receipt for each notice.
pub struct HostTeardown {
    pub users: Vec<UserId>,
    pub notices: Vec<UserOffer>,
}

/// Whether `mail` tells the host itself to leave.
pub open spec fn closes_host(host: Seq<char>, mail: ToHostMessage) -> bool {
    mail.event == ToHostEvent::Disconnect && mail.user_id@ == host
}

/// Whether the event of a frame from the host's socket has a meaning.
pub open spec fn host_event_known(event: Seq<char>) -> bool {
    event == EVENT_MESSAGE@ || event == EVENT_DISCONNECT@
}

/// What a frame from the host's socket asks to offer to the user it names,
/// where its event has a meaning: its data, or the notice that the user is
/// kicked.
pub open spec fn host_frame_notice(frame: HostWebSocketMessage) -> ToUserMessageView {
    if frame.event@ == EVENT_MESSAGE@ {
        ToUserMessageView::message(frame.user_id@, frame.message)
    } else {
        ToUserMessageView::disconnect(frame.user_id@, DisconnectReason::Kicked)
    }
}

/// Whether `relay` is what becomes of `frame`, sent by the host of the room
/// under `room`.
pub open spec fn host_relay_fits(
    relay: HostRelay,
    system: SystemView,
    room: Seq<char>,
    frame: HostWebSocketMessage,
) -> bool {
    match relay {
        HostRelay::NotInRoom => !system.registry.is_member(room, frame.user_id@),
        HostRelay::UnknownEvent => {
            &&& system.registry.is_member(room, frame.user_id@)
            &&& !host_event_known(frame.event@)
        },
        HostRelay::Sent(offer) => {
            &&& system.registry.is_member(room, frame.user_id@)
            &&& host_event_known(frame.event@)
            &&& offer.attests(system.fabric, frame.user_id@, room, host_frame_notice(frame))
        },
    }
}

/// The system after the teardown of the host session of the room under
/// `room`: without the room, its members and its host mailbox.
pub open spec fn host_torn_down(system: SystemView, room: Seq<char>) -> SystemView {
    SystemView {
        registry: system.registry.without_room(room),
        fabric: crate::message_bus::FabricView {
            hosts: system.fabric.hosts.remove(room),
            users: system.fabric.users,
        },
    }
}

/// What a frame from the host's socket asks for, where `in_room` tells
/// whether the user it names is a member of the host's room.
pub fn route_host_frame(frame: HostWebSocketMessage, in_room: bool) -> (route: HostRoute)
    ensures
        match route {
            HostRoute::NotInRoom => !in_room,
            HostRoute::UnknownEvent => in_room && !host_event_known(frame.event@),
            HostRoute::Send(message) => {
                &&& in_room
                &&& host_event_known(frame.event@)
                &&& message.fits_schema()
                &&& message@ == host_frame_notice(frame)
            },
        },
{
    if !in_room {
        return HostRoute::NotInRoom;
    }
    if same_text(frame.event.as_str(), EVENT_MESSAGE) {
        HostRoute::Send(ToUserMessage::message(frame.user_id, frame.message))
    } else if same_text(frame.event.as_str(), EVENT_DISCONNECT) {
        HostRoute::Send(ToUserMessage::disconnect(frame.user_id, DisconnectReason::Kicked))
    } else {
        HostRoute::UnknownEvent
    }
}

/// Acts on a frame from the socket of the host of the room under `room_id`:
/// relays its data to the member it names, or tells that member to leave.
pub fn handle_host_message(state: &AppState, room_id: &str, frame: HostWebSocketMessage) -> (relay:
    HostRelay)
    ensures
        host_relay_fits(relay, state@, room_id@, frame),
{
    let target = frame.user_id.clone();
    let in_room = state.storage.is_user_in_room(room_id, &target);
    match route_host_frame(frame, in_room) {
        HostRoute::NotInRoom => HostRelay::NotInRoom,
        HostRoute::UnknownEvent => HostRelay::UnknownEvent,
        HostRoute::Send(message) => HostRelay::Sent(
            state.message_bus.send_to_user(&target, room_id, message),
        ),
    }
}

/// Tears the room under `room_id` down after its host's session: closes the
/// host mailbox, ends every membership, offers each member a notice that the
/// room is closed, and takes the room out of the registry.
pub fn cleanup_host_disconnect(state: &mut AppState, room_id: &str) -> (report: HostTeardown)
    requires
        old(state).well_formed(),
    ensures
        final(state).well_formed(),
        final(state)@ == host_torn_down(old(state)@, room_id@),
        user_texts(report.users@).to_set() == old(state)@.registry.members_of(room_id@),
        user_texts(report.users@).no_duplicates(),
        all_notified(
            report.notices@,
            report.users@,
            final(state)@.fabric,
            room_id@,
            DisconnectReason::RoomClosed,
        ),
{
    state.message_bus.unregister_host(room_id);
    let users = state.storage.clear_room_users(room_id);
    let notices = state.message_bus.disconnect_room_users(
        room_id,
        users.as_slice(),
        DisconnectReason::RoomClosed,
    );
    let _ = state.storage.remove_room(room_id);
    proof {
        old(state)@.registry.lemma_clear_then_remove(room_id@);
    }
    HostTeardown { users, notices }
}

impl HostSession {
    /// Starts the session of the host `host_id` of the room under `room_id`:
    /// opens the room's host mailbox and hands out its consumer end.
    pub fn start(state: &mut AppState, room_id: &str, host_id: UserId) -> (started: (
        HostSession,
        Receiver<ToHostMessage>,
    ))
        requires
            old(state).well_formed(),
        ensures
            final(state).well_formed(),
            final(state)@.registry == old(state)@.registry,
            final(state)@.fabric.hosts == old(state)@.fabric.hosts.insert(room_id@),
            final(state)@.fabric.users == old(state)@.fabric.users,
            started.0@ == (HostSessionView {
                room: room_id@,
                host: host_id@,
                pong_deadline: None,
                phase: HostPhase::Serving,
            }),
    {
        let receiver = state.message_bus.register_host(room_id);
        let session = HostSession {
            room_id: room_id.to_owned(),
            host_id,
            heartbeat: Heartbeat::new(),
            phase: HostPhase::Serving,
        };
        (session, receiver)
    }

    /// The key of the session's room.
    pub fn room_id(&self) -> (room_id: &str)
        ensures
            room_id@ == self@.room,
    {
        self.room_id.as_str()
    }

    /// The session's host.
    pub fn host_id(&self) -> (host_id: &UserId)
        ensures
            host_id@ == self@.host,
    {
        &self.host_id
    }

    /// The deadline of the pong that the session awaits, if it awaits one.
    pub fn pong_deadline(&self) -> (deadline: Option<u64>)
        ensures
            deadline == self@.pong_deadline,
    {
        self.heartbeat.pong_deadline
    }

    /// Whether the session is closing.
    pub fn is_closing(&self) -> (closing: bool)
        ensures
            closing == (self@.phase is Closing),
    {
        match self.phase {
            HostPhase::Serving => false,
            HostPhase::Closing => true,
        }
    }

    /// Decides what to do with what the mailbox handed over: a message, or
    /// `None` once the mailbox is closed.
    pub fn on_mailbox(&mut self, mail: Option<ToHostMessage>) -> (step: HostMailStep)
        ensures
            final(self)@.room == old(self)@.room,
            final(self)@.host == old(self)@.host,
            final(self)@.pong_deadline == old(self)@.pong_deadline,
            match step {
                HostMailStep::Forward(message) => {
                    &&& old(self)@.phase is Serving
                    &&& mail == Some(message)
                    &&& !closes_host(old(self)@.host, message)
                    &&& final(self)@.phase is Serving
                },
                HostMailStep::ForwardThenClose(message) => {
                    &&& old(self)@.phase is Serving
                    &&& mail == Some(message)
                    &&& closes_host(old(self)@.host, message)
                    &&& final(self)@.phase is Closing
                },
                HostMailStep::Close => {
                    &&& old(self)@.phase is Closing || mail is None
                    &&& final(self)@.phase is Closing
                },
            },
    {
        if self.is_closing() {
            return HostMailStep::Close;
        }
        match mail {
            Some(message) => {
                let disconnect = match message.event {
                    ToHostEvent::Disconnect => true,
                    _ => false,
                };
                if disconnect && message.user_id == self.host_id {
                    self.phase = HostPhase::Closing;
                    HostMailStep::ForwardThenClose(message)
                } else {
                    HostMailStep::Forward(message)
                }
            },
            None => {
                self.phase = HostPhase::Closing;
                HostMailStep::Close
            },
        }
    }

    /// Takes note of how sending a forwarded message went: the session
    /// closes where it failed.
    pub fn on_forward_result(&mut self, sent: bool)
        ensures
            final(self)@.room == old(self)@.room,
            final(self)@.host == old(self)@.host,
            final(self)@.pong_deadline == old(self)@.pong_deadline,
            final(self)@.phase == if sent {
                old(self)@.phase
            } else {
                HostPhase::Closing
            },
    {
        if !sent {
            self.phase = HostPhase::Closing;
        }
    }

    /// Acts on what the socket handed over. A frame that reads is relayed;
    /// a pong ends the wait for it; a close frame, the end of the stream or
    /// a failure closes the session; anything else is passed over.
    pub fn on_socket(&mut self, state: &AppState, event: SocketEvent<HostWebSocketMessage>) -> (relay:
        Option<HostRelay>)
        ensures
            final(self)@.room == old(self)@.room,
            final(self)@.host == old(self)@.host,
            old(self)@.phase is Closing ==> final(self)@ == old(self)@ && relay is None,
            old(self)@.phase is Serving ==> match event {
                SocketEvent::Frame(frame) => {
                    &&& final(self)@ == old(self)@
                    &&& relay matches Some(done)
                    &&& host_relay_fits(done, state@, old(self)@.room, frame)
                },
                SocketEvent::Pong => {
                    &&& relay is None
                    &&& final(self)@.phase is Serving
                    &&& final(self)@.pong_deadline is None
                },
                SocketEvent::Close | SocketEvent::End | SocketEvent::Error => {
                    &&& relay is None
                    &&& final(self)@.phase is Closing
                    &&& final(self)@.pong_deadline == old(self)@.pong_deadline
                },
                SocketEvent::Malformed | SocketEvent::Other => {
                    &&& relay is None
                    &&& final(self)@ == old(self)@
                },
            },
    {
        if self.is_closing() {
            return None;
        }
        match event {
            SocketEvent::Frame(frame) => Some(
                handle_host_message(state, self.room_id.as_str(), frame),
            ),
            SocketEvent::Pong => {
                self.heartbeat.clear();
                None
            },
            SocketEvent::Close | SocketEvent::End | SocketEvent::Error => {
                self.phase = HostPhase::Closing;
                None
            },
            SocketEvent::Malformed | SocketEvent::Other => None,
        }
    }

    /// Decides what to do at a tick of the ping timer, at `now` on the
    /// session's clock: the session closes where the awaited pong is overdue,
    /// and else a ping is due.
    pub fn on_tick(&mut self, now: u64) -> (step: TickStep)
        ensures
            final(self)@.room == old(self)@.room,
            final(self)@.host == old(self)@.host,
            final(self)@.pong_deadline == old(self)@.pong_deadline,
            step == TickStep::Ping <==> old(self)@.phase is Serving && !pong_overdue(
                old(self)@.pong_deadline,
                now,
            ),
            final(self)@.phase == if step == TickStep::Ping {
                HostPhase::Serving
            } else {
                HostPhase::Closing
            },
    {
        if self.is_closing() || self.heartbeat.overdue(now) {
            self.phase = HostPhase::Closing;
            TickStep::Expired
        } else {
            TickStep::Ping
        }
    }

    /// Takes note of how sending a ping went, at `now` on the session's
    /// clock: the pong is awaited where it was sent, and the session closes
    /// where it was not.
    pub fn on_ping_result(&mut self, sent: bool, now: u64)
        ensures
            final(self)@.room == old(self)@.room,
            final(self)@.host == old(self)@.host,
            old(self)@.phase is Closing ==> final(self)@ == old(self)@,
            old(self)@.phase is Serving && sent ==> {
                &&& final(self)@.phase is Serving
                &&& final(self)@.pong_deadline == Some(pong_deadline_after(now))
            },
            old(self)@.phase is Serving && !sent ==> {
                &&& final(self)@.phase is Closing
                &&& final(self)@.pong_deadline == old(self)@.pong_deadline
            },
    {
        if self.is_closing() {
            return;
        }
        if sent {
            self.heartbeat.arm(now);
        } else {
            self.phase = HostPhase::Closing;
        }
    }

    /// Ends the session, whatever its phase, and tears its room down.
    pub fn finish(self, state: &mut AppState) -> (report: HostTeardown)
        requires
            old(state).well_formed(),
        ensures
            final(state).well_formed(),
            final(state)@ == host_torn_down(old(state)@, self@.room),
            user_texts(report.users@).to_set() == old(state)@.registry.members_of(self@.room),
            user_texts(report.users@).no_duplicates(),
            all_notified(
                report.notices@,
                report.users@,
                final(state)@.fabric,
                self@.room,
                DisconnectReason::RoomClosed,
            ),
    {
        cleanup_host_disconnect(state, self.room_id.as_str())
    }
}

} // verus!
