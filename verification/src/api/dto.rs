use vstd::prelude::*;

verus! {

/// What the request to create a room carries.
#[derive(Debug)]
pub struct CreateRoomRequest {
    pub room_type: String,
    pub host_id: String,
}

/// What the answer to a created room carries.
#[derive(Debug)]
pub struct CreateRoomResponse {
    pub room_id: String,
}

/// One room of a page, with the number of its members.
#[derive(Debug)]
pub struct RoomWithPlayerCount {
    pub room_id: String,
    pub host_id: String,
    pub room_type: String,
    pub player_count: usize,
}

/// One page of rooms.
#[derive(Debug)]
pub struct RoomsPageResponse {
    pub rooms: Vec<RoomWithPlayerCount>,
    pub total_rooms: usize,
    pub page: usize,
    pub size: usize,
}

/// Which page is asked for; what is left out takes its default.
#[derive(Clone, Copy, Debug)]
pub struct PaginationParams {
    pub page: Option<usize>,
    pub size: Option<usize>,
}

/// What a request for a session names: the room, and the side to take.
#[derive(Debug)]
pub struct WsQueryParams {
    pub room_id: String,
    pub connection_type: String,
}

} // verus!
