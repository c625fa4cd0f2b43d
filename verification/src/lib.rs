//! Authentication and authorization protocol logic for a service that logs
//! users in against a hosted user pool, hands the issued tokens to the browser
//! as cookies, and judges an access token presented later.
//!
//! Everything here works on plain values. The surrounding program performs
//! the remote calls and hands their outcomes back in.

pub mod data_structs;
pub mod errors;
pub mod handlers;
pub mod operations;
