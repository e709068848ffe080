//! Core of a desktop shell that embeds a remote web page in a child view:
//! the geometry that positions the child view below a custom titlebar, and
//! the decision logic of a single-hop reverse proxy that relays a response
//! while omitting the headers that would block embedding.

pub mod commands;
pub mod constants;
pub mod errors;
pub mod proxy;
pub mod utils;
