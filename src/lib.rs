//! A registry of live websocket connections: handles, membership, and the
//! attribution of send outcomes to the connection they concern.

pub mod error;
pub mod laws;
pub mod websocket_state;

pub use error::{Result, WebSocketStateError};
pub use websocket_state::{WebSocketHandle, WebSocketState};
