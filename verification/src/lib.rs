//! The decisions behind a browser WebSocket service for a message-passing
//! component framework: what a lifecycle code means, what a connection handle
//! allows while it is open, and which application message each host callback
//! produces. The transport itself and the component's message queue stay with
//! the caller; everything here maps plain values to plain values.

pub mod callbacks;
pub mod format;
pub mod handle;
pub mod status;

pub use crate::callbacks::{on_frame, on_status_code};
pub use crate::format::{Restorable, Storable};
pub use crate::handle::WebSocketHandle;
pub use crate::status::{WebSocketStatus, CLOSED_CODE, OPENED_CODE};
