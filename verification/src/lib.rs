//! Credential verification and session tokens for a web application.
//!
//! The crate hashes and checks passwords with a per-credential salt, issues and
//! validates signed, expiring session tokens, and decides what each
//! authentication request is answered with. It performs no network or database
//! I/O itself: the request flows in [`flow`] say which record to fetch or store,
//! and are resumed with what the store returned.
//!
//! The types that hold a password, the signing secret or a token implement no
//! `Debug`, so that none of them is written to a log by accident.
//!
//! Every function is verified with Verus against the contract in its header.
//! The calls into `argon2`, `jsonwebtoken` and `chrono`, with the values of
//! `serde_json` and the random number generator of `rand_core` that they are
//! handed, are the only code whose behaviour is assumed; each sits in a small
//! private function whose doc comment says what is assumed of it.

pub mod clock;
pub mod errors;
pub mod flow;
pub mod jwt;
pub mod password;
pub mod service;
pub mod user;
