//! What each request decides, apart from the store and the mailer.

pub mod auth;
