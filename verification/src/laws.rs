use crate::api::handlers::cancelled;
use crate::domain::room::{RoomId, RoomView};
use crate::storage::RegistryView;
use crate::websocket::host::host_torn_down;
use crate::websocket::user::{user_joined, user_torn_down};
use crate::SystemView;
use vstd::prelude::*;

verus! {

/// The teardown of one session of a room.
pub enum Teardown {
    /// The teardown of the host's session.
    Host,
    /// The teardown of the session of this user.
    User(Seq<char>),
}

/// The system after one teardown in the room under `room`.
pub open spec fn torn_down(system: SystemView, room: Seq<char>, step: Teardown) -> SystemView {
    match step {
        Teardown::Host => host_torn_down(system, room),
        Teardown::User(user) => user_torn_down(system, room, user),
    }
}

/// The system after `steps`, one after the other, in the room under `room`.
pub open spec fn torn_down_all(system: SystemView, room: Seq<char>, steps: Seq<Teardown>) -> SystemView
    decreases steps.len(),
{
    if steps.len() == 0 {
        system
    } else {
        torn_down(torn_down_all(system, room, steps.drop_last()), room, steps.last())
    }
}

/// No teardown brings back a room, a mailbox or a membership of its room.
proof fn lemma_teardown_adds_nothing(system: SystemView, room: Seq<char>, step: Teardown)
    ensures
        !system.registry.has_room(room) ==> !torn_down(system, room, step).registry.has_room(room),
        !system.fabric.has_host(room) ==> !torn_down(system, room, step).fabric.has_host(room),
        forall|user: Seq<char>|
            !system.fabric.has_user(user, room) ==> !(#[trigger] torn_down(
                system,
                room,
                step,
            ).fabric.has_user(user, room)),
        forall|user: Seq<char>|
            !system.registry.is_member(room, user) ==> !(#[trigger] torn_down(
                system,
                room,
                step,
            ).registry.is_member(room, user)),
{
}

/// What each teardown of a run leaves behind stays so to the end of the run.
proof fn lemma_teardowns_last(system: SystemView, room: Seq<char>, steps: Seq<Teardown>)
    ensures
        !system.registry.has_room(room) || steps.contains(Teardown::Host) ==> !torn_down_all(
            system,
            room,
            steps,
        ).registry.has_room(room),
        !system.fabric.has_host(room) || steps.contains(Teardown::Host) ==> !torn_down_all(
            system,
            room,
            steps,
        ).fabric.has_host(room),
        forall|user: Seq<char>|
            !system.fabric.has_user(user, room) || steps.contains(Teardown::User(user))
                ==> !(#[trigger] torn_down_all(system, room, steps).fabric.has_user(user, room)),
        forall|user: Seq<char>|
            !system.registry.is_member(room, user) || steps.contains(Teardown::User(user))
                || steps.contains(Teardown::Host) ==> !(#[trigger] torn_down_all(
                system,
                room,
                steps,
            ).registry.is_member(room, user)),
    decreases steps.len(),
{
    if steps.len() > 0 {
        let earlier = steps.drop_last();
        let last = steps.last();
        lemma_teardowns_last(system, room, earlier);
        lemma_teardown_adds_nothing(torn_down_all(system, room, earlier), room, last);
        assert forall|step: Teardown| steps.contains(step) implies earlier.contains(step) || step
            == last by {
            let at = choose|at: int| 0 <= at < steps.len() && steps[at] == step;
            if at < steps.len() - 1 {
                assert(earlier[at] == step);
            }
        }
    }
}

/// Under one key there is one mailbox: a second session of the same user in
/// the same room takes the key of the first and adds none.
pub proof fn lemma_second_session_takes_the_key(system: SystemView, room: Seq<char>, user: Seq<char>)
    ensures
        user_joined(system, room, user).fabric.has_user(user, room),
        user_joined(user_joined(system, room, user), room, user).fabric == user_joined(
            system,
            room,
            user,
        ).fabric,
{
    let once = user_joined(system, room, user).fabric;
    let twice = user_joined(user_joined(system, room, user), room, user).fabric;
    assert(twice.users =~= once.users);
}

/// A user is a member of a room from the start of its session there, if the
/// registry holds the room, and is none after the session's teardown.
pub proof fn lemma_membership_follows_session(system: SystemView, room: Seq<char>, user: Seq<char>)
    requires
        system.registry.well_formed(),
    ensures
        user_joined(system, room, user).registry.is_member(room, user)
            <==> system.registry.has_room(room),
        !user_torn_down(system, room, user).registry.is_member(room, user),
{
}

/// After a room is cancelled, and once the session of its host, if it has a
/// host mailbox, and the session of every user with a mailbox in it have
/// torn down, in whatever order and among whatever other teardowns of that
/// room: the room is gone, no mailbox of it is left, and nobody is a member.
pub proof fn lemma_cancel_clears_room(system: SystemView, room: Seq<char>, steps: Seq<Teardown>)
    requires
        system.fabric.has_host(room) ==> steps.contains(Teardown::Host),
        forall|user: Seq<char>|
            system.fabric.has_user(user, room) ==> steps.contains(Teardown::User(user)),
    ensures
        !torn_down_all(cancelled(system, room), room, steps).registry.has_room(room),
        !torn_down_all(cancelled(system, room), room, steps).fabric.has_host(room),
        forall|user: Seq<char>|
            !(#[trigger] torn_down_all(cancelled(system, room), room, steps).fabric.has_user(
                user,
                room,
            )),
        forall|user: Seq<char>|
            !(#[trigger] torn_down_all(cancelled(system, room), room, steps).registry.is_member(
                room,
                user,
            )),
{
    lemma_teardowns_last(cancelled(system, room), room, steps);
}

/// Once the session of a room's host and the session of every user with a
/// mailbox in the room have torn down, in whatever order and among whatever
/// other teardowns of that room: the room is gone, no mailbox of it is left,
/// and nobody is a member.
pub proof fn lemma_host_teardown_clears_room(
    system: SystemView,
    room: Seq<char>,
    steps: Seq<Teardown>,
)
    requires
        steps.contains(Teardown::Host),
        forall|user: Seq<char>|
            system.fabric.has_user(user, room) ==> steps.contains(Teardown::User(user)),
    ensures
        !torn_down_all(system, room, steps).registry.has_room(room),
        !torn_down_all(system, room, steps).fabric.has_host(room),
        forall|user: Seq<char>|
            !(#[trigger] torn_down_all(system, room, steps).fabric.has_user(user, room)),
        forall|user: Seq<char>|
            !(#[trigger] torn_down_all(system, room, steps).registry.is_member(room, user)),
{
    lemma_teardowns_last(system, room, steps);
}

/// No two rooms of a registry have the same identifier.
pub proof fn lemma_room_ids_are_unique(registry: RegistryView, first: Seq<char>, second: Seq<char>)
    requires
        registry.well_formed(),
        registry.has_room(first),
        registry.has_room(second),
        registry.rooms[first].id == registry.rooms[second].id,
    ensures
        first == second,
{
}

/// A registry holds a room under the key of an identifier exactly if it
/// holds a room with that identifier: filing a room is refused only where a
/// room with the same identifier is there already.
pub proof fn lemma_key_taken_means_id_taken(registry: RegistryView, id: RoomId)
    requires
        registry.well_formed(),
    ensures
        registry.has_room(id.key()) <==> exists|key: Seq<char>|
            registry.has_room(key) && (#[trigger] registry.rooms[key]).id == id,
{
    if registry.has_room(id.key()) {
        id.lemma_key_identifies(registry.rooms[id.key()].id);
    }
}

/// Filing a room that the registry does not hold and then removing it leaves
/// the registry as it was, whoever joined the room in between.
pub proof fn lemma_create_then_remove_restores(
    registry: RegistryView,
    room: RoomView,
    joined: Seq<char>,
)
    requires
        registry.well_formed(),
        !registry.has_room(room.id.key()),
    ensures
        registry.with_room(room).without_room(room.id.key()) == registry,
        registry.with_room(room).with_member(room.id.key(), joined).without_room(room.id.key())
            == registry,
        registry.with_room(room).room_count() == registry.room_count() + 1,
        registry.with_room(room).without_room(room.id.key()).room_count() == registry.room_count(),
{
    let key = room.id.key();
    let back = registry.with_room(room).without_room(key);
    assert(back.rooms =~= registry.rooms);
    assert(back.members =~= registry.members);
    let joined_back = registry.with_room(room).with_member(key, joined).without_room(key);
    assert(joined_back.rooms =~= registry.rooms);
    assert(joined_back.members =~= registry.members);
}

/// Ending a membership twice is the same as ending it once.
pub proof fn lemma_remove_member_twice(registry: RegistryView, room: Seq<char>, user: Seq<char>)
    ensures
        registry.without_member(room, user).without_member(room, user) == registry.without_member(
            room,
            user,
        ),
{
    let once = registry.without_member(room, user);
    let twice = once.without_member(room, user);
    if registry.members.contains_key(room) {
        assert(once.members[room].remove(user) =~= once.members[room]);
        assert(twice.members =~= once.members);
    }
}

} // verus!
