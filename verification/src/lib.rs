//! The relay core of a TLS-terminating reverse proxy: it tells upgrade
//! requests from plain ones, derives the backend's WebSocket address, and
//! decides, frame by frame, what each direction of a relay session forwards.
//!
//! Nothing here performs I/O. The caller owns the sockets, reports what
//! happened on them as events, and carries out the actions it is handed.

pub mod message;
pub mod upgrade;
pub mod backend;
pub mod bridge;
pub mod pump;
pub mod session;
pub mod connection;
pub mod forward;
