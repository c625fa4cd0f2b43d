//! The steps of a login and of an authorization, each on plain values.

pub mod text;
pub mod text_map;
pub mod secret_hash;
pub mod auth;
pub mod user_token;
pub mod user;
pub mod auth_key;
pub mod token_verifier;
