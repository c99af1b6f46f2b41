//! The verified core of a Fledge plugin that talks to a CorvidAgent server.
pub mod text;
pub mod json;
pub mod flags;
pub mod protocol;
pub mod reports;
pub mod session;
pub mod laws;
