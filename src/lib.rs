//! Room and session engine for ephemeral multiplayer rooms: the room data
//! model, the realtime action resolver, the room registry, the per-connection
//! session decisions and the control-plane entry points.
pub mod room_id;
pub mod room;
pub mod realtime;
pub mod registry;
pub mod session;
pub mod game_api;
