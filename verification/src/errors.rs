//! The failures this service can report, and the single shape they are
//! normalised into before they reach the HTTP boundary.

pub mod login;
pub mod server;
pub mod user_token;
