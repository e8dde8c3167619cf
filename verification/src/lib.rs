//! A relay of messages between the host of a room and the users of that
//! room: the registry of rooms and members, the fabric of mailboxes, the
//! decisions of the two kinds of session, and the administrative requests.
//!
//! The registry and the fabric are changed through exclusive borrows only.
//! Tasks that share them keep them behind a lock and take it for the length
//! of one call.

use vstd::prelude::*;

pub mod api;
pub mod auth;
pub mod domain;
pub mod laws;
pub mod message_bus;
pub mod notices;
pub mod storage;
pub mod text;
pub mod websocket;

verus! {

/// The shared state as plain values.
pub struct SystemView {
    pub registry: storage::RegistryView,
    pub fabric: message_bus::FabricView,
}

/// Everything the sessions and the handlers share: the registry and the
/// mailbox fabric.
pub struct AppState {
    pub storage: storage::RoomStorage,
    pub message_bus: message_bus::MessageBus,
}

impl View for AppState {
    type V = SystemView;

    open spec fn view(&self) -> SystemView {
        SystemView { registry: self.storage@, fabric: self.message_bus@ }
    }
}

impl AppState {
    /// The registry is well formed.
    pub open spec fn well_formed(&self) -> bool {
        self.storage.well_formed()
    }

    /// A state without rooms and without mailboxes.
    pub fn new() -> (result: Self)
        ensures
            result.well_formed(),
            result@.registry.rooms == storage::no_rooms(),
            result@.fabric.hosts == message_bus::no_keys(),
            result@.fabric.users == message_bus::no_user_keys(),
    {
        AppState { storage: storage::RoomStorage::new(), message_bus: message_bus::MessageBus::new() }
    }
}

} // verus!
