//! The bridge between a message bus and a playback engine: bus frames are
//! decoded, dispatched by type to a registered handler, and answered with a
//! playback command or a bus response.

pub mod bus_connection;
pub mod envelope;
pub mod handlers;
pub mod json;
pub mod laws;
pub mod player;
