//! Credential and token lifecycle for a multi-user service: password
//! hashing, signed session tokens, single-use pending tokens and the guard
//! that admits or rejects a request.

pub mod text;
pub mod error;
pub mod password;
pub mod ids;
pub mod clock;
pub mod models;
pub mod token;
pub mod pending;
pub mod guard;
pub mod cookie;
pub mod config;
pub mod handler;
pub mod mail;
