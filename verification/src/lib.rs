//! The session and credential core of a user-account service: password
//! hashing and verification, stateless signed tokens, opaque stored sessions,
//! the login/signup flow, and the guard that authenticates inbound requests.
//!
//! The surrounding web layer (routing, request bodies, the relational store)
//! stays outside; it hands this crate plain values and takes plain values
//! back.
pub mod errors;
pub mod password;
pub mod rng;
pub mod decimal;
pub mod session;
pub mod token;
pub mod users;
pub mod service;
pub mod guard;
