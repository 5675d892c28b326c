//! A library for sending Firebase Cloud Messaging pushes, centered on the
//! OAuth 2.0 authorization-code flow with PKCE that obtains the Google
//! access token: random verifier, challenge and state generation, the
//! authorization URL, the parsing and validation of the redirect callback,
//! the judgement of the token exchange, and the bookkeeping around sends.
//! The shell that does the network and browser work drives these functions
//! and is kept outside the library.

pub mod auth;
pub mod callback;
pub mod client;
pub mod config;
pub mod exchange;
pub mod history;
pub mod message;
pub mod pkce;
mod platform;
pub mod template;
pub mod text;
