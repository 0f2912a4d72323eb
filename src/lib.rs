//! Device-login handshake for a command-line client: the browser signs in with an
//! OAuth identity provider, and the client polls for short-lived cloud credentials.

pub mod keys;
pub mod config;
pub mod schemas;
pub mod store;
pub mod provider;
pub mod token;
pub mod keyset;
pub mod errors;
pub mod issuer;
pub mod flow;
pub mod laws;
