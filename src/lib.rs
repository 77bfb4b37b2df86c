//! Authentication and session gateway of a small scheduling service.
//!
//! The library decides, for each inbound request, whether it carries a valid
//! session token, must be sent to the identity provider, or is completing an
//! OAuth2 authorization-code callback. Everything that talks to the network or
//! the database is left to the caller, which feeds results back as events.
pub mod callback;
pub mod clock;
pub mod credential;
pub mod gateway;
pub mod gpt;
pub mod response;
pub mod text;
pub mod token;
pub mod user;
