use crate::domain::event::{DisconnectReason, ToHostEvent, ToUserEvent};
use crate::domain::message::{
    data_of, payload_of, reason_of, MessagePayload, ToHostMessage, ToHostMessageView,
    ToUserMessage, ToUserMessageView,
};
use crate::domain::user::UserId;
use dashmap::DashMap;
use tokio::sync::mpsc::{Receiver, Sender};
use vstd::prelude::*;

verus! {

/// Number of messages a mailbox holds before further deliveries are refused.
pub const CHANNEL_BUFFER: usize = 256;

/// Makes `tokio::sync::mpsc::Sender` known as a type whose inside is not
/// looked into.
#[verifier::external_type_specification]
#[verifier::external_body]
#[verifier::reject_recursive_types(T)]
pub struct ExSender<T>(Sender<T>);

/// Makes `tokio::sync::mpsc::Receiver` known as a type whose inside is not
/// looked into.
#[verifier::external_type_specification]
#[verifier::external_body]
#[verifier::reject_recursive_types(T)]
pub struct ExReceiver<T>(Receiver<T>);

/// The keys under which a map of host mailboxes holds a producer.
pub uninterp spec fn host_channel_keys(map: DashMap<String, Sender<ToHostMessage>>) -> Set<
    Seq<char>,
>;

/// The keys under which a map of user mailboxes holds a producer, each a
/// user's text and a room's key.
pub uninterp spec fn user_channel_keys(
    map: DashMap<(String, String), Sender<ToUserMessage>>,
) -> Set<(Seq<char>, Seq<char>)>;

/// The set of room keys without a key.
pub open spec fn no_keys() -> Set<Seq<char>> {
    Set::empty()
}

/// The set of user keys without a key.
pub open spec fn no_user_keys() -> Set<(Seq<char>, Seq<char>)> {
    Set::empty()
}

/// Calls `tokio::sync::mpsc::channel`, which panics on a capacity of zero or
/// above an eighth of `usize::MAX`, and else makes a bounded queue with its
/// two ends. Nothing is claimed of the two ends.
#[verifier::external_body]
fn open_channel<T>(buffer: usize) -> (ends: (Sender<T>, Receiver<T>))
    requires
        0 < buffer <= usize::MAX / 8,
{
    tokio::sync::mpsc::channel(buffer)
}

/// Calls `Sender::try_send`, which queues the message unless the queue is
/// full or its consumer is gone, and never waits. Whether it queued depends
/// on what the consumer has taken so far, so nothing is claimed of it.
#[verifier::external_body]
fn offer<T>(producer: &Sender<T>, message: T) -> (queued: bool) {
    producer.try_send(message).is_ok()
}

/// Calls `DashMap::new`, which makes a map with no entry.
#[verifier::external_body]
fn new_host_map() -> (fresh: DashMap<String, Sender<ToHostMessage>>)
    ensures
        host_channel_keys(fresh) == no_keys(),
{
    DashMap::new()
}

/// Calls `DashMap::insert`, which files the value under the key, in place of
/// the value that stood there before, if any.
#[verifier::external_body]
fn insert_host_channel(
    map: &mut DashMap<String, Sender<ToHostMessage>>,
    key: String,
    producer: Sender<ToHostMessage>,
)
    ensures
        host_channel_keys(*final(map)) == host_channel_keys(*old(map)).insert(key@),
{
    map.insert(key, producer);
}

/// Calls `DashMap::get`, and copies the producer out of the guard it hands
/// back: a second handle on the same queue.
#[verifier::external_body]
fn find_host_channel(map: &DashMap<String, Sender<ToHostMessage>>, key: &str) -> (found: Option<
    Sender<ToHostMessage>,
>)
    ensures
        found is Some <==> host_channel_keys(*map).contains(key@),
{
    map.get(key).map(|entry| entry.value().clone())
}

/// Calls `DashMap::remove`, which takes the entry under the key out of the
/// map, if there was one.
#[verifier::external_body]
fn take_host_channel(map: &mut DashMap<String, Sender<ToHostMessage>>, key: &str)
    ensures
        host_channel_keys(*final(map)) == host_channel_keys(*old(map)).remove(key@),
{
    map.remove(key);
}

/// Calls `DashMap::new`, which makes a map with no entry.
#[verifier::external_body]
fn new_user_map() -> (fresh: DashMap<(String, String), Sender<ToUserMessage>>)
    ensures
        user_channel_keys(fresh) == no_user_keys(),
{
    DashMap::new()
}

/// Calls `DashMap::insert`, which files the value under the key and hands
/// back the value that stood there before, if any.
#[verifier::external_body]
fn insert_user_channel(
    map: &mut DashMap<(String, String), Sender<ToUserMessage>>,
    key: (String, String),
    producer: Sender<ToUserMessage>,
) -> (previous: Option<Sender<ToUserMessage>>)
    ensures
        user_channel_keys(*final(map)) == user_channel_keys(*old(map)).insert((key.0@, key.1@)),
        previous is Some <==> user_channel_keys(*old(map)).contains((key.0@, key.1@)),
{
    map.insert(key, producer)
}

/// Calls `DashMap::get`, and copies the producer out of the guard it hands
/// back: a second handle on the same queue.
#[verifier::external_body]
fn find_user_channel(
    map: &DashMap<(String, String), Sender<ToUserMessage>>,
    key: &(String, String),
) -> (found: Option<Sender<ToUserMessage>>)
    ensures
        found is Some <==> user_channel_keys(*map).contains((key.0@, key.1@)),
{
    map.get(key).map(|entry| entry.value().clone())
}

/// Calls `DashMap::remove`, which takes the entry under the key out of the
/// map, if there was one.
#[verifier::external_body]
fn take_user_channel(map: &mut DashMap<(String, String), Sender<ToUserMessage>>, key: &(String, String))
    ensures
        user_channel_keys(*final(map)) == user_channel_keys(*old(map)).remove((key.0@, key.1@)),
{
    map.remove(key);
}

/// What became of a message offered to a mailbox.
#[derive(Clone, Copy, Debug, PartialEq, Eq, Structural)]
pub enum Delivery {
    /// The mailbox took the message.
    Queued,
    /// The mailbox was full, or its consumer was gone: the message is lost.
    Refused,
    /// No mailbox stands under the key: the message is lost.
    NoMailbox,
}

/// What a lookup and an offer together amount to: `found` tells whether a
/// mailbox stood under the key, `queued` whether it took the message.
pub fn delivery(found: bool, queued: bool) -> (outcome: Delivery)
    ensures
        outcome == if !found {
            Delivery::NoMailbox
        } else if queued {
            Delivery::Queued
        } else {
            Delivery::Refused
        },
{
    if !found {
        Delivery::NoMailbox
    } else if queued {
        Delivery::Queued
    } else {
        Delivery::Refused
    }
}

/// The key of the mailbox of `user_id` in the room under `room_id`: the
/// user's text and the room's key.
pub fn user_channel_key(user_id: &UserId, room_id: &str) -> (key: (String, String))
    ensures
        key.0@ == user_id@,
        key.1@ == room_id@,
{
    (user_id.as_str().to_owned(), room_id.to_owned())
}

/// The fabric as plain values: the room keys that hold a host mailbox, and
/// the pairs of a user's text and a room's key that hold a user mailbox. A
/// key holds at most one mailbox.
pub struct FabricView {
    pub hosts: Set<Seq<char>>,
    pub users: Set<(Seq<char>, Seq<char>)>,
}

impl FabricView {
    /// Whether the room under `room` has a host mailbox.
    pub open spec fn has_host(self, room: Seq<char>) -> bool {
        self.hosts.contains(room)
    }

    /// Whether `user` has a mailbox in the room under `room`.
    pub open spec fn has_user(self, user: Seq<char>, room: Seq<char>) -> bool {
        self.users.contains((user, room))
    }
}

/// What a receipt for an offer to a user's mailbox says: in which fabric
/// and to whose mailbox in which room the offer was made, which frame was
/// offered, and what became of it.
pub struct UserOfferView {
    pub fabric: FabricView,
    pub user: Seq<char>,
    pub room: Seq<char>,
    pub message: ToUserMessageView,
    pub outcome: Delivery,
}

/// What a receipt for an offer to a host's mailbox says: in which fabric
/// and to the host mailbox of which room the offer was made, which frame was
/// offered, and what became of it.
pub struct HostOfferView {
    pub fabric: FabricView,
    pub room: Seq<char>,
    pub message: ToHostMessageView,
    pub outcome: Delivery,
}

/// The receipt for one offer to a user's mailbox. Its fields are closed and
/// it is neither copied nor changed: the fabric alone writes one, when it
/// makes the offer, so whoever holds one has had that offer made.
pub struct UserOffer {
    event: ToUserEvent,
    user_id: UserId,
    reason: Option<DisconnectReason>,
    outcome: Delivery,
    data: Ghost<Option<serde_json::Value>>,
    user: Ghost<Seq<char>>,
    room: Ghost<Seq<char>>,
    fabric: Ghost<FabricView>,
}

/// The receipt for one offer to a host's mailbox. Its fields are closed and
/// it is neither copied nor changed: the fabric alone writes one, when it
/// makes the offer, so whoever holds one has had that offer made.
pub struct HostOffer {
    event: ToHostEvent,
    user_id: UserId,
    reason: Option<DisconnectReason>,
    outcome: Delivery,
    data: Ghost<Option<serde_json::Value>>,
    room: Ghost<Seq<char>>,
    fabric: Ghost<FabricView>,
}

impl View for UserOffer {
    type V = UserOfferView;

    closed spec fn view(&self) -> UserOfferView {
        UserOfferView {
            fabric: self.fabric@,
            user: self.user@,
            room: self.room@,
            message: ToUserMessageView {
                event: self.event,
                user: self.user_id@,
                message: payload_of(self.reason, self.data@),
            },
            outcome: self.outcome,
        }
    }
}

impl View for HostOffer {
    type V = HostOfferView;

    closed spec fn view(&self) -> HostOfferView {
        HostOfferView {
            fabric: self.fabric@,
            room: self.room@,
            message: ToHostMessageView {
                event: self.event,
                user: self.user_id@,
                message: payload_of(self.reason, self.data@),
            },
            outcome: self.outcome,
        }
    }
}

impl UserOffer {
    /// Whether the receipt is for the offer of `message` to the mailbox of
    /// `user` in the room under `room` of the fabric `fabric`, and names
    /// `NoMailbox` exactly where the fabric held no such mailbox.
    pub open spec fn attests(
        &self,
        fabric: FabricView,
        user: Seq<char>,
        room: Seq<char>,
        message: ToUserMessageView,
    ) -> bool {
        &&& self@.fabric == fabric
        &&& self@.user == user
        &&& self@.room == room
        &&& self@.message == message
        &&& self@.outcome is NoMailbox <==> !fabric.has_user(user, room)
    }

    /// What became of the frame.
    pub fn outcome(&self) -> (outcome: Delivery)
        ensures
            outcome == self@.outcome,
    {
        self.outcome
    }

    /// The event of the frame.
    pub fn event(&self) -> (event: ToUserEvent)
        ensures
            event == self@.message.event,
    {
        self.event
    }

    /// The user that the frame names.
    pub fn user_id(&self) -> (user_id: &UserId)
        ensures
            user_id@ == self@.message.user,
    {
        &self.user_id
    }

    /// The reason that the frame names, if it names one.
    pub fn reason(&self) -> (reason: Option<DisconnectReason>)
        ensures
            reason == reason_of(self@.message.message),
    {
        self.reason
    }
}

impl HostOffer {
    /// Whether the receipt is for the offer of `message` to the host mailbox
    /// of the room under `room` of the fabric `fabric`, and names
    /// `NoMailbox` exactly where the fabric held no such mailbox.
    pub open spec fn attests(
        &self,
        fabric: FabricView,
        room: Seq<char>,
        message: ToHostMessageView,
    ) -> bool {
        &&& self@.fabric == fabric
        &&& self@.room == room
        &&& self@.message == message
        &&& self@.outcome is NoMailbox <==> !fabric.has_host(room)
    }

    /// What became of the frame.
    pub fn outcome(&self) -> (outcome: Delivery)
        ensures
            outcome == self@.outcome,
    {
        self.outcome
    }

    /// The event of the frame.
    pub fn event(&self) -> (event: ToHostEvent)
        ensures
            event == self@.message.event,
    {
        self.event
    }

    /// The user that the frame names.
    pub fn user_id(&self) -> (user_id: &UserId)
        ensures
            user_id@ == self@.message.user,
    {
        &self.user_id
    }

    /// The reason that the frame names, if it names one.
    pub fn reason(&self) -> (reason: Option<DisconnectReason>)
        ensures
            reason == reason_of(self@.message.message),
    {
        self.reason
    }
}

/// The reason that a payload names, if it names one.
fn reason_in(payload: &Option<MessagePayload>) -> (reason: Option<DisconnectReason>)
    ensures
        reason == reason_of(*payload),
        payload_of(reason, data_of(*payload)) == *payload,
{
    match payload {
        Some(MessagePayload::Reason(reason)) => Some(*reason),
        _ => None,
    }
}

/// The consumer end of a new user mailbox, and the receipt for the notice
/// offered to the mailbox that it displaced, if it displaced one.
pub struct UserRegistration {
    pub receiver: Receiver<ToUserMessage>,
    pub displaced: Option<UserOffer>,
}

/// The mailboxes of the live sessions: one for the host of a room, one for
/// each user of a room. A mailbox is a bounded queue that never makes its
/// sender wait: what does not fit is lost. Opening and closing a mailbox
/// takes the fabric by exclusive borrow; offering a message does not.
pub struct MessageBus {
    host_channels: DashMap<String, Sender<ToHostMessage>>,
    user_channels: DashMap<(String, String), Sender<ToUserMessage>>,
}

impl View for MessageBus {
    type V = FabricView;

    closed spec fn view(&self) -> FabricView {
        FabricView {
            hosts: host_channel_keys(self.host_channels),
            users: user_channel_keys(self.user_channels),
        }
    }
}

impl MessageBus {
    /// A fabric without mailboxes.
    pub fn new() -> (result: Self)
        ensures
            result@.hosts == no_keys(),
            result@.users == no_user_keys(),
    {
        MessageBus { host_channels: new_host_map(), user_channels: new_user_map() }
    }

    /// Opens the host mailbox of the room under `room_id`, in place of the
    /// one that stood there, and hands out its consumer end.
    pub fn register_host(&mut self, room_id: &str) -> (receiver: Receiver<ToHostMessage>)
        ensures
            final(self)@.hosts == old(self)@.hosts.insert(room_id@),
            final(self)@.users == old(self)@.users,
    {
        let (producer, receiver) = open_channel(CHANNEL_BUFFER);
        insert_host_channel(&mut self.host_channels, room_id.to_owned(), producer);
        receiver
    }

    /// Closes the host mailbox of the room under `room_id`, if there is one.
    pub fn unregister_host(&mut self, room_id: &str)
        ensures
            final(self)@.hosts == old(self)@.hosts.remove(room_id@),
            final(self)@.users == old(self)@.users,
    {
        take_host_channel(&mut self.host_channels, room_id);
    }

    /// Offers `msg` to the host mailbox of the room under `room_id`, without
    /// waiting, and writes the receipt.
    pub fn send_to_host(&self, room_id: &str, msg: ToHostMessage) -> (offer: HostOffer)
        ensures
            offer.attests(self@, room_id@, msg@),
    {
        let event = msg.event;
        let user_id = msg.user_id.clone();
        let reason = reason_in(&msg.message);
        let ghost data = data_of(msg.message);
        let outcome = match find_host_channel(&self.host_channels, room_id) {
            Some(producer) => {
                let queued = offer(&producer, msg);
                delivery(true, queued)
            },
            None => delivery(false, false),
        };
        HostOffer {
            event,
            user_id,
            reason,
            outcome,
            data: Ghost(data),
            room: Ghost(room_id@),
            fabric: Ghost(self@),
        }
    }

    /// Opens the mailbox of `user_id` in the room under `room_id` and hands
    /// out its consumer end. Where a mailbox stood under that key, it is
    /// taken out of the fabric and offered `notice`, and `displaced` is the
    /// receipt for that offer.
    pub fn open_user_mailbox(&mut self, user_id: &UserId, room_id: &str, notice: ToUserMessage) -> (registration:
        UserRegistration)
        ensures
            final(self)@.users == old(self)@.users.insert((user_id@, room_id@)),
            final(self)@.hosts == old(self)@.hosts,
            registration.displaced is Some <==> old(self)@.has_user(user_id@, room_id@),
            registration.displaced matches Some(offer) ==> offer.attests(
                old(self)@,
                user_id@,
                room_id@,
                notice@,
            ),
    {
        let key = user_channel_key(user_id, room_id);
        let (producer, receiver) = open_channel(CHANNEL_BUFFER);
        let event = notice.event;
        let addressee = notice.user_id.clone();
        let reason = reason_in(&notice.message);
        let ghost data = data_of(notice.message);
        let displaced = match insert_user_channel(&mut self.user_channels, key, producer) {
            Some(previous) => {
                let queued = offer(&previous, notice);
                Some(
                    UserOffer {
                        event,
                        user_id: addressee,
                        reason,
                        outcome: delivery(true, queued),
                        data: Ghost(data),
                        user: Ghost(user_id@),
                        room: Ghost(room_id@),
                        fabric: Ghost(old(self)@),
                    },
                )
            },
            None => None,
        };
        UserRegistration { receiver, displaced }
    }

    /// Closes the mailbox of `user_id` in the room under `room_id`, if there
    /// is one.
    pub fn unregister_user(&mut self, user_id: &UserId, room_id: &str)
        ensures
            final(self)@.users == old(self)@.users.remove((user_id@, room_id@)),
            final(self)@.hosts == old(self)@.hosts,
    {
        let key = user_channel_key(user_id, room_id);
        take_user_channel(&mut self.user_channels, &key);
    }

    /// Offers `msg` to the mailbox of `user_id` in the room under `room_id`,
    /// without waiting, and writes the receipt.
    pub fn send_to_user(&self, user_id: &UserId, room_id: &str, msg: ToUserMessage) -> (offer:
        UserOffer)
        ensures
            offer.attests(self@, user_id@, room_id@, msg@),
    {
        let key = user_channel_key(user_id, room_id);
        let event = msg.event;
        let addressee = msg.user_id.clone();
        let reason = reason_in(&msg.message);
        let ghost data = data_of(msg.message);
        let outcome = match find_user_channel(&self.user_channels, &key) {
            Some(producer) => {
                let queued = offer(&producer, msg);
                delivery(true, queued)
            },
            None => delivery(false, false),
        };
        UserOffer {
            event,
            user_id: addressee,
            reason,
            outcome,
            data: Ghost(data),
            user: Ghost(user_id@),
            room: Ghost(room_id@),
            fabric: Ghost(self@),
        }
    }
}

impl Default for MessageBus {
    fn default() -> (result: Self)
        ensures
            result@.hosts == no_keys(),
            result@.users == no_user_keys(),
    {
        MessageBus::new()
    }
}

} // verus!
