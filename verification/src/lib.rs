//! Authentication and delegated-authorization core of a personal-service
//! backend: registration, login, signed session tokens, request
//! authentication, and an OAuth2 authorization-code-with-PKCE delegation
//! handshake, together with the in-memory session and pending-flow tables
//! that back them.

#![verifier::loop_isolation(false)]

pub mod config;
pub mod delegation;
pub mod errors;
pub mod hashing;
pub mod laws;
pub mod manager;
pub mod routes;
pub mod store;
pub mod token;
pub mod user;
