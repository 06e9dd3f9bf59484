//! A bridge between a chat platform and a reactor backend: the token cipher
//! that turns access tokens into opaque client-held state, and the decisions
//! that the HTTP handlers take on each request.

pub mod auth;
pub mod cipher;
pub mod event;
pub mod hexcode;
pub mod outbound;
pub mod reply;
