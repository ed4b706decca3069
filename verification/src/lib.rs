//! Session-authenticated ticket service: how the context of a request is
//! resolved (cookie, token, context, guard of the protected routes), how
//! an internal error becomes what the client may see, and the ticket store.

pub mod ctx;
pub mod error;
pub mod log;
pub mod model;
mod text;
pub mod web;
