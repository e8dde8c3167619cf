use crate::domain::room::{Room, RoomId, RoomView};
use crate::domain::user::UserId;
use dashmap::DashMap;
use vstd::prelude::*;

verus! {

/// Makes `dashmap::DashMap` known as a type whose inside is not looked into.
#[verifier::external_type_specification]
#[verifier::external_body]
#[verifier::reject_recursive_types(K)]
#[verifier::reject_recursive_types(V)]
#[verifier::reject_recursive_types(S)]
pub struct ExDashMap<K, V, S>(DashMap<K, V, S>);

/// The texts of a list of user identifiers, in the list's order.
pub open spec fn user_texts(users: Seq<UserId>) -> Seq<Seq<char>> {
    users.map_values(|user: UserId| user@)
}

/// The keys of a list of keyed rooms, in the list's order.
pub open spec fn listed_keys(listing: Seq<(String, Room)>) -> Seq<Seq<char>> {
    listing.map_values(|entry: (String, Room)| entry.0@)
}

/// The room map with no entry.
pub open spec fn no_rooms() -> Map<Seq<char>, RoomView> {
    Map::empty()
}

/// The member map with no entry.
pub open spec fn no_member_lists() -> Map<Seq<char>, Seq<Seq<char>>> {
    Map::empty()
}

/// The rooms that a room map holds, each under its key.
pub uninterp spec fn room_entries(map: DashMap<String, Room>) -> Map<Seq<char>, RoomView>;

/// The member lists that a member map holds, each under its room's key and
/// each as the texts of its user identifiers.
pub uninterp spec fn member_entries(map: DashMap<String, Vec<UserId>>) -> Map<
    Seq<char>,
    Seq<Seq<char>>,
>;

/// Calls `DashMap::new`, which makes a map with no entry.
#[verifier::external_body]
fn new_room_map() -> (fresh: DashMap<String, Room>)
    ensures
        room_entries(fresh) == no_rooms(),
{
    DashMap::new()
}

/// Calls `DashMap::contains_key`, which tells whether an entry stands under
/// the key.
#[verifier::external_body]
fn has_room_key(map: &DashMap<String, Room>, key: &str) -> (present: bool)
    ensures
        present == room_entries(*map).contains_key(key@),
{
    map.contains_key(key)
}

/// Calls `DashMap::insert`, which files the value under the key and hands
/// back the value that stood there before, if any.
#[verifier::external_body]
fn insert_room(map: &mut DashMap<String, Room>, key: String, room: Room) -> (previous: Option<Room>)
    ensures
        room_entries(*final(map)) == room_entries(*old(map)).insert(key@, room@),
        match previous {
            Some(before) => room_entries(*old(map)).contains_pair(key@, before@),
            None => !room_entries(*old(map)).contains_key(key@),
        },
{
    map.insert(key, room)
}

/// Calls `DashMap::get`, and copies the value out of the guard it hands back.
#[verifier::external_body]
fn find_room(map: &DashMap<String, Room>, key: &str) -> (found: Option<Room>)
    ensures
        match found {
            Some(room) => room_entries(*map).contains_pair(key@, room@),
            None => !room_entries(*map).contains_key(key@),
        },
{
    map.get(key).map(|entry| entry.value().clone())
}

/// Calls `DashMap::remove`, which takes the entry under the key out of the
/// map and hands it back, if there was one.
#[verifier::external_body]
fn take_room(map: &mut DashMap<String, Room>, key: &str) -> (taken: Option<Room>)
    ensures
        room_entries(*final(map)) == room_entries(*old(map)).remove(key@),
        match taken {
            Some(room) => room_entries(*old(map)).contains_pair(key@, room@),
            None => !room_entries(*old(map)).contains_key(key@),
        },
{
    map.remove(key).map(|entry| entry.1)
}

/// Calls `DashMap::iter`, which walks every entry of every shard once, and
/// copies each entry out. The contract claims that each listed pair is an
/// entry, that every entry is listed, and that no key is listed twice; it
/// claims nothing of the order.
#[verifier::external_body]
fn list_rooms(map: &DashMap<String, Room>) -> (listing: Vec<(String, Room)>)
    ensures
        forall|index: int|
            0 <= index < listing.len() ==> room_entries(*map).contains_pair(
                (#[trigger] listing[index]).0@,
                listing[index].1@,
            ),
        forall|key: Seq<char>|
            room_entries(*map).contains_key(key) ==> listed_keys(listing@).contains(key),
        listed_keys(listing@).no_duplicates(),
{
    map.iter().map(|entry| (entry.key().clone(), entry.value().clone())).collect()
}

/// Calls `DashMap::new`, which makes a map with no entry.
#[verifier::external_body]
fn new_member_map() -> (fresh: DashMap<String, Vec<UserId>>)
    ensures
        member_entries(fresh) == no_member_lists(),
{
    DashMap::new()
}

/// Calls `DashMap::insert`, which files the value under the key, in place of
/// the value that stood there before, if any.
#[verifier::external_body]
fn insert_members(map: &mut DashMap<String, Vec<UserId>>, key: String, members: Vec<UserId>)
    ensures
        member_entries(*final(map)) == member_entries(*old(map)).insert(
            key@,
            user_texts(members@),
        ),
{
    map.insert(key, members);
}

/// Calls `DashMap::get`, and copies the value out of the guard it hands back.
#[verifier::external_body]
fn find_members(map: &DashMap<String, Vec<UserId>>, key: &str) -> (found: Option<Vec<UserId>>)
    ensures
        match found {
            Some(members) => member_entries(*map).contains_pair(key@, user_texts(members@)),
            None => !member_entries(*map).contains_key(key@),
        },
{
    map.get(key).map(|entry| entry.value().clone())
}

/// Calls `DashMap::remove`, which takes the entry under the key out of the
/// map, if there was one.
#[verifier::external_body]
fn take_members(map: &mut DashMap<String, Vec<UserId>>, key: &str)
    ensures
        member_entries(*final(map)) == member_entries(*old(map)).remove(key@),
{
    map.remove(key);
}

/// The registry as plain values: the rooms by key, and the set of members
/// of each room by the room's key.
pub struct RegistryView {
    pub rooms: Map<Seq<char>, RoomView>,
    pub members: Map<Seq<char>, Set<Seq<char>>>,
}

impl RegistryView {
    /// The registry holds finitely many rooms, each under the text of its
    /// own identifier, and a finite member set for exactly the rooms it holds.
    pub open spec fn well_formed(self) -> bool {
        &&& self.rooms.dom().finite()
        &&& self.rooms.dom() == self.members.dom()
        &&& forall|key: Seq<char>| #[trigger]
            self.rooms.contains_key(key) ==> self.rooms[key].id.key() == key
        &&& forall|key: Seq<char>| #[trigger]
            self.members.contains_key(key) ==> self.members[key].finite()
    }

    /// Whether a room stands under `key`.
    pub open spec fn has_room(self, key: Seq<char>) -> bool {
        self.rooms.contains_key(key)
    }

    /// The number of rooms.
    pub open spec fn room_count(self) -> nat {
        self.rooms.dom().len()
    }

    /// The members of the room under `key`; none where there is no such room.
    pub open spec fn members_of(self, key: Seq<char>) -> Set<Seq<char>> {
        if self.members.contains_key(key) {
            self.members[key]
        } else {
            Set::empty()
        }
    }

    /// Whether `user` is a member of the room under `key`.
    pub open spec fn is_member(self, key: Seq<char>, user: Seq<char>) -> bool {
        self.members_of(key).contains(user)
    }

    /// The registry with `room` filed under its identifier, without members.
    pub open spec fn with_room(self, room: RoomView) -> Self {
        RegistryView {
            rooms: self.rooms.insert(room.id.key(), room),
            members: self.members.insert(room.id.key(), Set::empty()),
        }
    }

    /// The registry without the room under `key` and without its members.
    pub open spec fn without_room(self, key: Seq<char>) -> Self {
        RegistryView { rooms: self.rooms.remove(key), members: self.members.remove(key) }
    }

    /// The registry with `user` among the members of the room under `key`;
    /// the same registry where there is no such room.
    pub open spec fn with_member(self, key: Seq<char>, user: Seq<char>) -> Self {
        if self.members.contains_key(key) {
            RegistryView {
                rooms: self.rooms,
                members: self.members.insert(key, self.members[key].insert(user)),
            }
        } else {
            self
        }
    }

    /// The registry with `user` not among the members of the room under
    /// `key`; the same registry where there is no such room.
    pub open spec fn without_member(self, key: Seq<char>, user: Seq<char>) -> Self {
        if self.members.contains_key(key) {
            RegistryView {
                rooms: self.rooms,
                members: self.members.insert(key, self.members[key].remove(user)),
            }
        } else {
            self
        }
    }

    /// The registry with the room under `key` left without members; the same
    /// registry where there is no such room.
    pub open spec fn without_members(self, key: Seq<char>) -> Self {
        if self.members.contains_key(key) {
            RegistryView { rooms: self.rooms, members: self.members.insert(key, Set::empty()) }
        } else {
            self
        }
    }
}

impl RegistryView {
    /// Ending every membership in a room and then removing the room is the
    /// same as removing the room.
    pub proof fn lemma_clear_then_remove(self, key: Seq<char>)
        ensures
            self.without_members(key).without_room(key) == self.without_room(key),
    {
        assert(self.without_members(key).without_room(key).rooms =~= self.without_room(key).rooms);
        assert(self.without_members(key).without_room(key).members =~= self.without_room(
            key,
        ).members);
    }
}

/// How many rooms page number `page` holds, counted from zero, when `total`
/// rooms are cut into pages of `size`.
pub open spec fn page_length(total: int, page: int, size: int) -> int {
    if page * size >= total {
        0
    } else if total - page * size < size {
        total - page * size
    } else {
        size
    }
}

/// Why a room could not be created.
#[derive(Clone, Copy, Debug, PartialEq, Eq, Structural)]
pub enum CreateRoomError {
    /// A room already stands under the new room's identifier.
    RoomAlreadyExists,
}

/// The registry of rooms and of each room's members. Every change takes
/// the registry by exclusive borrow, so each is one step to whoever shares it.
pub struct RoomStorage {
    rooms: DashMap<String, Room>,
    room_users: DashMap<String, Vec<UserId>>,
}

impl View for RoomStorage {
    type V = RegistryView;

    closed spec fn view(&self) -> RegistryView {
        RegistryView {
            rooms: room_entries(self.rooms),
            members: member_entries(self.room_users).map_values(
                |list: Seq<Seq<char>>| list.to_set(),
            ),
        }
    }
}

/// Taking one element out of a list without repetitions takes exactly that
/// element out of the set of its elements.
proof fn lemma_remove_from_list(list: Seq<Seq<char>>, index: int)
    requires
        list.no_duplicates(),
        0 <= index < list.len(),
    ensures
        list.remove(index).no_duplicates(),
        list.remove(index).to_set() == list.to_set().remove(list[index]),
{
    let rest = list.remove(index);
    assert forall|user: Seq<char>| rest.to_set().contains(user) <==> list.to_set().remove(
        list[index],
    ).contains(user) by {
        if rest.contains(user) {
            let at = choose|at: int| 0 <= at < rest.len() && rest[at] == user;
            if at < index {
                assert(list[at] == user);
            } else {
                assert(list[at + 1] == user);
            }
        }
        if list.contains(user) && user != list[index] {
            let at = choose|at: int| 0 <= at < list.len() && list[at] == user;
            if at < index {
                assert(rest[at] == user);
            } else {
                assert(rest[at - 1] == user);
            }
        }
    }
    assert(rest.to_set() =~= list.to_set().remove(list[index]));
}

/// Where `user` stands in `list`, if it does.
fn find_user(list: &Vec<UserId>, user: &UserId) -> (found: Option<usize>)
    ensures
        match found {
            Some(index) => index < list.len() && list[index as int]@ == user@,
            None => !user_texts(list@).contains(user@),
        },
{
    let mut index: usize = 0;
    while index < list.len()
        invariant
            index <= list.len(),
            forall|before: int| 0 <= before < index ==> list[before]@ != user@,
        decreases list.len() - index,
    {
        if list[index] == *user {
            return Some(index);
        }
        index += 1;
    }
    None
}

impl RoomStorage {
    /// The view is well formed, and no member list names a user twice.
    pub closed spec fn well_formed(&self) -> bool {
        &&& self@.well_formed()
        &&& forall|key: Seq<char>| #[trigger]
            member_entries(self.room_users).contains_key(key) ==> member_entries(
                self.room_users,
            )[key].no_duplicates()
    }

    /// Replacing the member list of a room that the registry holds keeps the
    /// registry well formed, and replaces that room's member set.
    proof fn lemma_members_replaced(&self, before: &Self, key: Seq<char>, list: Seq<Seq<char>>)
        requires
            before.well_formed(),
            room_entries(self.rooms) == room_entries(before.rooms),
            member_entries(before.room_users).contains_key(key),
            member_entries(self.room_users) == member_entries(before.room_users).insert(key, list),
            list.no_duplicates(),
        ensures
            self.well_formed(),
            self@.rooms == before@.rooms,
            self@.members == before@.members.insert(key, list.to_set()),
    {
        broadcast use vstd::seq_lib::seq_to_set_is_finite;

        assert(self@.members =~= before@.members.insert(key, list.to_set()));
        assert(self@.members.dom() =~= before@.members.dom());
    }

    /// A registry without rooms.
    pub fn new() -> (result: Self)
        ensures
            result.well_formed(),
            result@.rooms == no_rooms(),
            result@.members == Map::<Seq<char>, Set<Seq<char>>>::empty(),
    {
        let result = RoomStorage { rooms: new_room_map(), room_users: new_member_map() };
        assert(result@.members =~= Map::<Seq<char>, Set<Seq<char>>>::empty());
        result
    }

    /// Every well-formed registry has a well-formed view.
    pub proof fn lemma_view_well_formed(&self)
        requires
            self.well_formed(),
        ensures
            self@.well_formed(),
    {
    }

    /// Files `room` under its identifier, with no members, unless a room
    /// already stands there.
    pub fn create_room(&mut self, room: Room) -> (result: Result<RoomId, CreateRoomError>)
        requires
            old(self).well_formed(),
        ensures
            final(self).well_formed(),
            match result {
                Ok(id) => {
                    &&& !old(self)@.has_room(room.id.key())
                    &&& id == room.id
                    &&& final(self)@ == old(self)@.with_room(room@)
                },
                Err(error) => {
                    &&& old(self)@.has_room(room.id.key())
                    &&& error == CreateRoomError::RoomAlreadyExists
                    &&& final(self)@ == old(self)@
                },
            },
    {
        let key = room.id.to_string();
        if has_room_key(&self.rooms, key.as_str()) {
            return Err(CreateRoomError::RoomAlreadyExists);
        }
        let room_id = room.id;
        let ghost filed = room@;
        let _ = insert_room(&mut self.rooms, key.clone(), room);
        insert_members(&mut self.room_users, key, Vec::new());
        proof {
            assert(user_texts(Seq::<UserId>::empty()) =~= Seq::<Seq<char>>::empty());
            assert(Seq::<Seq<char>>::empty().to_set() =~= Set::<Seq<char>>::empty());
            assert(self@.rooms =~= old(self)@.with_room(filed).rooms);
            assert(self@.members =~= old(self)@.with_room(filed).members);
        }
        Ok(room_id)
    }

    /// A copy of the room under `room_id`, if there is one.
    pub fn get_room(&self, room_id: &str) -> (result: Option<Room>)
        ensures
            match result {
                Some(room) => self@.rooms.contains_pair(room_id@, room@),
                None => !self@.has_room(room_id@),
            },
    {
        find_room(&self.rooms, room_id)
    }

    /// Takes the room under `room_id` out of the registry, with its members.
    pub fn remove_room(&mut self, room_id: &str) -> (result: Option<Room>)
        requires
            old(self).well_formed(),
        ensures
            final(self).well_formed(),
            final(self)@ == old(self)@.without_room(room_id@),
            match result {
                Some(room) => old(self)@.rooms.contains_pair(room_id@, room@),
                None => !old(self)@.has_room(room_id@),
            },
    {
        let room = take_room(&mut self.rooms, room_id);
        take_members(&mut self.room_users, room_id);
        proof {
            assert(self@.rooms =~= old(self)@.without_room(room_id@).rooms);
            assert(self@.members =~= old(self)@.without_room(room_id@).members);
        }
        room
    }

    /// One page of the rooms, and the number of all rooms. The pages are cut
    /// from one listing of the registry, whose order is not fixed.
    pub fn get_rooms_paginated(&self, page: usize, size: usize) -> (result: (Vec<Room>, usize))
        requires
            self.well_formed(),
        ensures
            result.1 == self@.room_count(),
            result.0.len() == page_length(result.1 as int, page as int, size as int),
            result.0.len() <= size,
            forall|index: int|
                0 <= index < result.0.len() ==> self@.rooms.contains_pair(
                    (#[trigger] result.0[index]).id.key(),
                    result.0[index]@,
                ),
            forall|first: int, second: int|
                0 <= first < second < result.0.len() ==> (#[trigger] result.0[first]).id.key() != (
                #[trigger] result.0[second]).id.key(),
    {
        let listing = list_rooms(&self.rooms);
        let total = listing.len();
        proof {
            let keys = listed_keys(listing@);
            keys.unique_seq_to_set();
            assert forall|key: Seq<char>| keys.to_set().contains(key) implies self@.rooms.dom().contains(
                key,
            ) by {
                let at = choose|at: int| 0 <= at < keys.len() && keys[at] == key;
                assert(listing[at].0@ == key);
            }
            assert(keys.to_set() =~= self@.rooms.dom());
        }
        let mut rooms: Vec<Room> = Vec::new();
        let start = match page.checked_mul(size) {
            Some(start) => start,
            None => total,
        };
        if start < total {
            let end = if size < total - start {
                start + size
            } else {
                total
            };
            let mut index = start;
            while index < end
                invariant
                    start <= index <= end <= total,
                    total == listing.len(),
                    rooms.len() == index - start,
                    forall|at: int|
                        0 <= at < rooms.len() ==> (#[trigger] rooms[at])@ == listing[start + at].1@,
                decreases end - index,
            {
                rooms.push(listing[index].1.clone());
                index += 1;
            }
            proof {
                assert forall|first: int, second: int|
                    0 <= first < second < rooms.len() implies (#[trigger] rooms[first]).id.key() != (
                #[trigger] rooms[second]).id.key() by {
                    let keys = listed_keys(listing@);
                    assert(keys[start + first] == listing[start + first].0@);
                    assert(keys[start + second] == listing[start + second].0@);
                    assert(self@.rooms.contains_pair(
                        listing[start + first].0@,
                        listing[start + first].1@,
                    ));
                    assert(self@.rooms.contains_pair(
                        listing[start + second].0@,
                        listing[start + second].1@,
                    ));
                }
                assert forall|index: int| 0 <= index < rooms.len() implies self@.rooms.contains_pair(
                    (#[trigger] rooms[index]).id.key(),
                    rooms[index]@,
                ) by {
                    assert(self@.rooms.contains_pair(
                        listing[start + index].0@,
                        listing[start + index].1@,
                    ));
                }
            }
        }
        (rooms, total)
    }

    /// Makes `user_id` a member of the room under `room_id`. Tells whether
    /// the user was newly added: not where it was a member already, nor
    /// where there is no such room.
    pub fn add_user_to_room(&mut self, room_id: &str, user_id: UserId) -> (added: bool)
        requires
            old(self).well_formed(),
        ensures
            final(self).well_formed(),
            final(self)@ == old(self)@.with_member(room_id@, user_id@),
            added == (old(self)@.has_room(room_id@) && !old(self)@.is_member(room_id@, user_id@)),
    {
        match find_members(&self.room_users, room_id) {
            Some(mut users) => {
                let ghost before = user_texts(users@);
                match find_user(&users, &user_id) {
                    Some(index) => {
                        proof {
                            assert(before[index as int] == user_id@);
                            assert(before.to_set().insert(user_id@) =~= before.to_set());
                            assert(self@.members =~= old(self)@.with_member(
                                room_id@,
                                user_id@,
                            ).members);
                        }
                        false
                    },
                    None => {
                        let ghost added_text = user_id@;
                        users.push(user_id);
                        proof {
                            assert(user_texts(users@) =~= before.push(added_text));
                            before.lemma_push_to_set_commute(added_text);
                        }
                        insert_members(&mut self.room_users, room_id.to_owned(), users);
                        proof {
                            self.lemma_members_replaced(
                                old(self),
                                room_id@,
                                before.push(added_text),
                            );
                        }
                        true
                    },
                }
            },
            None => false,
        }
    }

    /// Ends the membership of `user_id` in the room under `room_id`, if
    /// there is one.
    pub fn remove_user_from_room(&mut self, room_id: &str, user_id: &UserId)
        requires
            old(self).well_formed(),
        ensures
            final(self).well_formed(),
            final(self)@ == old(self)@.without_member(room_id@, user_id@),
    {
        match find_members(&self.room_users, room_id) {
            Some(mut users) => {
                let ghost before = user_texts(users@);
                match find_user(&users, user_id) {
                    Some(index) => {
                        let _ = users.remove(index);
                        proof {
                            assert(user_texts(users@) =~= before.remove(index as int));
                            lemma_remove_from_list(before, index as int);
                        }
                        insert_members(&mut self.room_users, room_id.to_owned(), users);
                        proof {
                            self.lemma_members_replaced(
                                old(self),
                                room_id@,
                                before.remove(index as int),
                            );
                        }
                    },
                    None => {
                        proof {
                            assert(before.to_set().remove(user_id@) =~= before.to_set());
                            assert(self@.members =~= old(self)@.without_member(
                                room_id@,
                                user_id@,
                            ).members);
                        }
                    },
                }
            },
            None => {},
        }
    }

    /// Whether `user_id` is a member of the room under `room_id`.
    pub fn is_user_in_room(&self, room_id: &str, user_id: &UserId) -> (result: bool)
        ensures
            result == self@.is_member(room_id@, user_id@),
    {
        match find_members(&self.room_users, room_id) {
            Some(users) => {
                let found = find_user(&users, user_id);
                proof {
                    if let Some(index) = found {
                        assert(user_texts(users@)[index as int] == user_id@);
                    }
                }
                found.is_some()
            },
            None => false,
        }
    }

    /// The number of members of the room under `room_id`.
    pub fn get_room_user_count(&self, room_id: &str) -> (count: usize)
        requires
            self.well_formed(),
        ensures
            count == self@.members_of(room_id@).len(),
    {
        match find_members(&self.room_users, room_id) {
            Some(users) => {
                proof {
                    user_texts(users@).unique_seq_to_set();
                }
                users.len()
            },
            None => 0,
        }
    }

    /// The members of the room under `room_id`, each once, in no fixed order.
    pub fn get_room_users(&self, room_id: &str) -> (users: Vec<UserId>)
        requires
            self.well_formed(),
        ensures
            user_texts(users@).to_set() == self@.members_of(room_id@),
            user_texts(users@).no_duplicates(),
    {
        match find_members(&self.room_users, room_id) {
            Some(users) => users,
            None => {
                let users: Vec<UserId> = Vec::new();
                assert(user_texts(users@).to_set() =~= Set::<Seq<char>>::empty());
                users
            },
        }
    }

    /// Ends every membership in the room under `room_id`, and hands back
    /// those who were members, each once, in no fixed order.
    pub fn clear_room_users(&mut self, room_id: &str) -> (users: Vec<UserId>)
        requires
            old(self).well_formed(),
        ensures
            final(self).well_formed(),
            final(self)@ == old(self)@.without_members(room_id@),
            user_texts(users@).to_set() == old(self)@.members_of(room_id@),
            user_texts(users@).no_duplicates(),
    {
        match find_members(&self.room_users, room_id) {
            Some(users) => {
                insert_members(&mut self.room_users, room_id.to_owned(), Vec::new());
                proof {
                    assert(user_texts(Seq::<UserId>::empty()) =~= Seq::<Seq<char>>::empty());
                    assert(Seq::<Seq<char>>::empty().to_set() =~= Set::<Seq<char>>::empty());
                    self.lemma_members_replaced(old(self), room_id@, Seq::empty());
                }
                users
            },
            None => {
                let users: Vec<UserId> = Vec::new();
                assert(user_texts(users@).to_set() =~= Set::<Seq<char>>::empty());
                users
            },
        }
    }
}

impl Default for RoomStorage {
    fn default() -> (result: Self)
        ensures
            result.well_formed(),
            result@.rooms == no_rooms(),
    {
        RoomStorage::new()
    }
}

} // verus!
