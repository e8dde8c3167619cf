use crate::api::dto::{
    CreateRoomRequest, CreateRoomResponse, PaginationParams, RoomWithPlayerCount,
    RoomsPageResponse,
};
use crate::auth::{has_role, roles_satisfy, Role, RoleView};
use crate::domain::event::DisconnectReason;
use crate::domain::room::{is_random_version, Room, RoomType};
use crate::domain::user::UserId;
use crate::domain::message::ToHostMessageView;
use crate::message_bus::{HostOffer, UserOffer};
use crate::notices::all_notified;
use crate::storage::{page_length, user_texts, RegistryView};
use crate::{AppState, SystemView};
use vstd::prelude::*;

verus! {

/// The page that is listed where the request names none.
pub const DEFAULT_PAGE: usize = 0;

/// The page size that is used where the request names none.
pub const DEFAULT_PAGE_SIZE: usize = 10;

/// The largest page size that is accepted.
pub const MAX_PAGE_SIZE: usize = 100;

/// How the request to create a room ended.
#[derive(Debug)]
pub enum CreateRoomOutcome {
    /// The caller is no administrator.
    Forbidden,
    /// The room was filed.
    Created(CreateRoomResponse),
    /// A room already stood under the new room's identifier.
    Conflict,
}

/// What was done to cancel a room: who its members were, in the order in
/// which they were notified, the receipt for each one's notice, and the
/// receipt for the host's notice.
pub struct CancelReport {
    pub users: Vec<UserId>,
    pub user_notices: Vec<UserOffer>,
    pub host_notice: HostOffer,
}

/// How the request to cancel a room ended.
pub enum CancelRoomOutcome {
    /// The caller is no administrator.
    Forbidden,
    /// No room stood under the key.
    NotFound,
    /// The room is gone.
    Cancelled(CancelReport),
}

/// How the request to list rooms ended.
#[derive(Debug)]
pub enum ListRoomsOutcome {
    /// The caller is no administrator.
    Forbidden,
    /// The page size is zero or too large.
    BadRequest,
    /// The page.
    Page(RoomsPageResponse),
}

impl CreateRoomOutcome {
    /// The status code of the answer.
    pub fn status(&self) -> (code: u16)
        ensures
            code == match self {
                CreateRoomOutcome::Forbidden => 403u16,
                CreateRoomOutcome::Created(_) => 201u16,
                CreateRoomOutcome::Conflict => 409u16,
            },
    {
        match self {
            CreateRoomOutcome::Forbidden => 403,
            CreateRoomOutcome::Created(_) => 201,
            CreateRoomOutcome::Conflict => 409,
        }
    }
}

impl CancelRoomOutcome {
    /// The status code of the answer.
    pub fn status(&self) -> (code: u16)
        ensures
            code == match self {
                CancelRoomOutcome::Forbidden => 403u16,
                CancelRoomOutcome::NotFound => 404u16,
                CancelRoomOutcome::Cancelled(_) => 204u16,
            },
    {
        match self {
            CancelRoomOutcome::Forbidden => 403,
            CancelRoomOutcome::NotFound => 404,
            CancelRoomOutcome::Cancelled(_) => 204,
        }
    }
}

impl ListRoomsOutcome {
    /// The status code of the answer.
    pub fn status(&self) -> (code: u16)
        ensures
            code == match self {
                ListRoomsOutcome::Forbidden => 403u16,
                ListRoomsOutcome::BadRequest => 400u16,
                ListRoomsOutcome::Page(_) => 200u16,
            },
    {
        match self {
            ListRoomsOutcome::Forbidden => 403,
            ListRoomsOutcome::BadRequest => 400,
            ListRoomsOutcome::Page(_) => 200,
        }
    }
}

/// The value of a pagination parameter: what the request names, else the
/// default.
pub open spec fn chosen(named: Option<usize>, default: usize) -> usize {
    match named {
        Some(value) => value,
        None => default,
    }
}

/// Whether a page size is accepted.
pub open spec fn page_size_accepted(size: usize) -> bool {
    1 <= size <= MAX_PAGE_SIZE
}

/// Whether `entry` shows a room of the registry as it stands there: under
/// its key, with its host, its kind and the number of its members.
pub open spec fn shows_room(entry: RoomWithPlayerCount, registry: RegistryView) -> bool {
    &&& registry.has_room(entry.room_id@)
    &&& entry.host_id@ == registry.rooms[entry.room_id@].host_id
    &&& entry.room_type@ == registry.rooms[entry.room_id@].room_type
    &&& entry.player_count == registry.members_of(entry.room_id@).len()
}

/// The system after the room under `room` is cancelled: without the room
/// and its members, with every mailbox as it was.
pub open spec fn cancelled(system: SystemView, room: Seq<char>) -> SystemView {
    SystemView { registry: system.registry.without_room(room), fabric: system.fabric }
}

/// Whether the registry holds a room whose identifier is a random one. Only
/// such a room can stand in the way of a new room, whose identifier is
/// drawn at random: an administrator's request to create a room succeeds on
/// every registry that holds none.
pub open spec fn holds_random_id(registry: RegistryView) -> bool {
    exists|key: Seq<char>|
        registry.has_room(key) && is_random_version((#[trigger] registry.rooms[key]).id.value())
}

/// Files `room`, unless a room already stands under its identifier.
pub fn file_room(state: &mut AppState, room: Room) -> (outcome: CreateRoomOutcome)
    requires
        old(state).well_formed(),
    ensures
        final(state).well_formed(),
        final(state)@.fabric == old(state)@.fabric,
        match outcome {
            CreateRoomOutcome::Created(response) => {
                &&& response.room_id@ == room.id.key()
                &&& !old(state)@.registry.has_room(room.id.key())
                &&& final(state)@.registry == old(state)@.registry.with_room(room@)
            },
            CreateRoomOutcome::Conflict => {
                &&& old(state)@.registry.has_room(room.id.key())
                &&& final(state)@.registry == old(state)@.registry
            },
            CreateRoomOutcome::Forbidden => false,
        },
{
    match state.storage.create_room(room) {
        Ok(room_id) => CreateRoomOutcome::Created(CreateRoomResponse { room_id: room_id.to_string() }),
        Err(_) => CreateRoomOutcome::Conflict,
    }
}

/// Creates a room of the kind and for the host that `body` names, under a
/// fresh random identifier. Only an administrator may.
pub fn create_room(state: &mut AppState, roles: &[Role], body: &CreateRoomRequest) -> (outcome:
    CreateRoomOutcome)
    requires
        old(state).well_formed(),
    ensures
        final(state).well_formed(),
        final(state)@.fabric == old(state)@.fabric,
        outcome is Forbidden <==> !roles_satisfy(roles@, RoleView::Admin),
        match outcome {
            CreateRoomOutcome::Created(response) => {
                let filed = final(state)@.registry.rooms[response.room_id@];
                &&& !old(state)@.registry.has_room(response.room_id@)
                &&& final(state)@.registry == old(state)@.registry.with_room(filed)
                &&& filed.id.key() == response.room_id@
                &&& is_random_version(filed.id.value())
                &&& filed.host_id == body.host_id@
                &&& filed.room_type == body.room_type@
            },
            _ => final(state)@.registry == old(state)@.registry,
        },
        outcome is Conflict ==> holds_random_id(old(state)@.registry),
{
    if !has_role(roles, &Role::Admin) {
        return CreateRoomOutcome::Forbidden;
    }
    let room = Room::new(
        UserId::new(body.host_id.as_str()),
        RoomType::new(body.room_type.as_str()),
    );
    proof {
        state.storage.lemma_view_well_formed();
        let key = room.id.key();
        if state@.registry.has_room(key) {
            room.id.lemma_key_identifies(state@.registry.rooms[key].id);
        }
    }
    file_room(state, room)
}

/// Cancels the room under `room_id`: ends every membership in it, offers
/// each member and then the host a notice that the room is closed, and takes
/// the room out of the registry. Only an administrator may.
pub fn cancel_room(state: &mut AppState, roles: &[Role], room_id: &str) -> (outcome:
    CancelRoomOutcome)
    requires
        old(state).well_formed(),
    ensures
        final(state).well_formed(),
        final(state)@.fabric == old(state)@.fabric,
        outcome is Forbidden <==> !roles_satisfy(roles@, RoleView::Admin),
        outcome is NotFound <==> {
            &&& roles_satisfy(roles@, RoleView::Admin)
            &&& !old(state)@.registry.has_room(room_id@)
        },
        match outcome {
            CancelRoomOutcome::Cancelled(report) => {
                &&& final(state)@ == cancelled(old(state)@, room_id@)
                &&& user_texts(report.users@).to_set() == old(state)@.registry.members_of(room_id@)
                &&& user_texts(report.users@).no_duplicates()
                &&& all_notified(
                    report.user_notices@,
                    report.users@,
                    old(state)@.fabric,
                    room_id@,
                    DisconnectReason::RoomClosed,
                )
                &&& report.host_notice.attests(
                    old(state)@.fabric,
                    room_id@,
                    ToHostMessageView::disconnect(
                        old(state)@.registry.rooms[room_id@].host_id,
                        DisconnectReason::RoomClosed,
                    ),
                )
            },
            _ => final(state)@.registry == old(state)@.registry,
        },
{
    if !has_role(roles, &Role::Admin) {
        return CancelRoomOutcome::Forbidden;
    }
    let room = match state.storage.get_room(room_id) {
        Some(room) => room,
        None => {
            return CancelRoomOutcome::NotFound;
        },
    };
    let users = state.storage.clear_room_users(room_id);
    let user_notices = state.message_bus.disconnect_room_users(
        room_id,
        users.as_slice(),
        DisconnectReason::RoomClosed,
    );
    let host_notice = state.message_bus.disconnect_host(
        room_id,
        &room.host_id,
        DisconnectReason::RoomClosed,
    );
    let _ = state.storage.remove_room(room_id);
    proof {
        old(state)@.registry.lemma_clear_then_remove(room_id@);
    }
    CancelRoomOutcome::Cancelled(CancelReport { users, user_notices, host_notice })
}

/// Lists one page of the rooms, each with the number of its members at
/// this moment. Only an administrator may, and only with a page size from
/// one to a hundred.
pub fn list_rooms(state: &AppState, roles: &[Role], params: &PaginationParams) -> (outcome:
    ListRoomsOutcome)
    requires
        state.well_formed(),
    ensures
        outcome is Forbidden <==> !roles_satisfy(roles@, RoleView::Admin),
        outcome is BadRequest <==> roles_satisfy(roles@, RoleView::Admin) && !page_size_accepted(
            chosen(params.size, DEFAULT_PAGE_SIZE),
        ),
        outcome matches ListRoomsOutcome::Page(response) ==> {
            &&& response.page == chosen(params.page, DEFAULT_PAGE)
            &&& response.size == chosen(params.size, DEFAULT_PAGE_SIZE)
            &&& response.total_rooms == state@.registry.room_count()
            &&& response.rooms.len() == page_length(
                response.total_rooms as int,
                response.page as int,
                response.size as int,
            )
            &&& forall|index: int|
                0 <= index < response.rooms.len() ==> shows_room(
                    #[trigger] response.rooms[index],
                    state@.registry,
                )
            &&& forall|first: int, second: int|
                0 <= first < second < response.rooms.len() ==> (
                #[trigger] response.rooms[first]).room_id@ != (
                #[trigger] response.rooms[second]).room_id@
        },
{
    if !has_role(roles, &Role::Admin) {
        return ListRoomsOutcome::Forbidden;
    }
    let page = match params.page {
        Some(page) => page,
        None => DEFAULT_PAGE,
    };
    let size = match params.size {
        Some(size) => size,
        None => DEFAULT_PAGE_SIZE,
    };
    if size == 0 || size > MAX_PAGE_SIZE {
        return ListRoomsOutcome::BadRequest;
    }
    let (found, total) = state.storage.get_rooms_paginated(page, size);
    let mut rooms: Vec<RoomWithPlayerCount> = Vec::new();
    let mut index: usize = 0;
    while index < found.len()
        invariant
            index <= found.len(),
            rooms.len() == index,
            state.well_formed(),
            forall|at: int|
                0 <= at < found.len() ==> state@.registry.rooms.contains_pair(
                    (#[trigger] found[at]).id.key(),
                    found[at]@,
                ),
            forall|at: int|
                0 <= at < index ==> shows_room(#[trigger] rooms[at], state@.registry) && rooms[at].room_id@
                    == found[at].id.key(),
        decreases found.len() - index,
    {
        let room = &found[index];
        let room_id = room.id.to_string();
        let player_count = state.storage.get_room_user_count(room_id.as_str());
        rooms.push(
            RoomWithPlayerCount {
                room_id,
                host_id: room.host_id.as_str().to_owned(),
                room_type: room.room_type.as_str().to_owned(),
                player_count,
            },
        );
        index += 1;
    }
    ListRoomsOutcome::Page(RoomsPageResponse { rooms, total_rooms: total, page, size })
}

} // verus!
