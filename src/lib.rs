//! The dispatch core of a path-based development reverse proxy: route selection,
//! URI rewriting, WebSocket message translation, upgrade negotiation and the
//! decisions of a duplex WebSocket bridge.

pub mod uri;
pub mod route;
pub mod dispatch;
pub mod message;
pub mod bridge;
pub mod negotiate;
pub mod forward;
