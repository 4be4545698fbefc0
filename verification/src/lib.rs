//! Verified core of a small web service: a todo list, a user table fed by a
//! sign-in endpoint, and an endpoint that fetches one e-mail over IMAP and has
//! its text scored for sentiment.
//!
//! The service's I/O (HTTP routes, the SQLite database, the IMAP session, the
//! sentiment service) lives outside this crate; the decisions it makes between
//! those steps live here, each with a contract.

pub mod text;
pub mod model;
pub mod oauth;
pub mod pages;
pub mod inbox;
pub mod nlp;
