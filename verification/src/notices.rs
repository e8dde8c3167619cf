use crate::domain::event::DisconnectReason;
use crate::domain::message::{ToHostMessage, ToHostMessageView, ToUserMessage, ToUserMessageView};
use crate::domain::user::UserId;
use crate::message_bus::{FabricView, HostOffer, MessageBus, UserOffer, UserRegistration};
use vstd::prelude::*;

verus! {

/// Whether `offers` are the receipts, one for each of `users` and in their
/// order, for a disconnect notice with `reason` offered to that user's
/// mailbox in the room under `room` of the fabric `fabric`.
pub open spec fn all_notified(
    offers: Seq<UserOffer>,
    users: Seq<UserId>,
    fabric: FabricView,
    room: Seq<char>,
    reason: DisconnectReason,
) -> bool {
    &&& offers.len() == users.len()
    &&& forall|index: int|
        0 <= index < users.len() ==> (#[trigger] offers[index]).attests(
            fabric,
            users[index]@,
            room,
            ToUserMessageView::disconnect(users[index]@, reason),
        )
}

/// The notice that a mailbox gets when another session takes its key.
pub fn displacement_notice(user_id: &UserId) -> (notice: ToUserMessage)
    ensures
        notice.fits_schema(),
        notice@ == ToUserMessageView::disconnect(user_id@, DisconnectReason::NewConnection),
{
    ToUserMessage::disconnect(user_id.clone(), DisconnectReason::NewConnection)
}

impl MessageBus {
    /// Opens the mailbox of `user_id` in the room under `room_id` and hands
    /// out its consumer end. Where a mailbox stood under that key, it is
    /// taken out of the fabric and offered the notice that a new connection
    /// has taken its place; `displaced` is the receipt for that offer.
    pub fn register_user(&mut self, user_id: &UserId, room_id: &str) -> (registration:
        UserRegistration)
        ensures
            final(self)@.users == old(self)@.users.insert((user_id@, room_id@)),
            final(self)@.hosts == old(self)@.hosts,
            registration.displaced is Some <==> old(self)@.has_user(user_id@, room_id@),
            registration.displaced matches Some(offer) ==> offer.attests(
                old(self)@,
                user_id@,
                room_id@,
                ToUserMessageView::disconnect(user_id@, DisconnectReason::NewConnection),
            ),
    {
        self.open_user_mailbox(user_id, room_id, displacement_notice(user_id))
    }

    /// Offers a disconnect notice with `reason` to the mailbox of each of
    /// `user_ids` in the room under `room_id`, in their order, and hands
    /// back the receipt for each offer.
    pub fn disconnect_room_users(
        &self,
        room_id: &str,
        user_ids: &[UserId],
        reason: DisconnectReason,
    ) -> (offers: Vec<UserOffer>)
        ensures
            all_notified(offers@, user_ids@, self@, room_id@, reason),
    {
        let mut offers: Vec<UserOffer> = Vec::new();
        let mut index: usize = 0;
        while index < user_ids.len()
            invariant
                index <= user_ids.len(),
                offers.len() == index,
                forall|at: int|
                    0 <= at < index ==> (#[trigger] offers[at]).attests(
                        self@,
                        user_ids[at]@,
                        room_id@,
                        ToUserMessageView::disconnect(user_ids[at]@, reason),
                    ),
            decreases user_ids.len() - index,
        {
            let user_id = &user_ids[index];
            let notice = ToUserMessage::disconnect(user_id.clone(), reason);
            offers.push(self.send_to_user(user_id, room_id, notice));
            index += 1;
        }
        offers
    }

    /// Offers the host mailbox of the room under `room_id` a disconnect
    /// notice addressed to `host_id`, with `reason`, and hands back the
    /// receipt for the offer.
    pub fn disconnect_host(&self, room_id: &str, host_id: &UserId, reason: DisconnectReason) -> (offer:
        HostOffer)
        ensures
            offer.attests(self@, room_id@, ToHostMessageView::disconnect(host_id@, reason)),
    {
        self.send_to_host(room_id, ToHostMessage::disconnect(host_id.clone(), reason))
    }
}

} // verus!
