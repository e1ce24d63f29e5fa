//! Credential validation and session management.
//!
//! The crate decides whether a login attempt succeeds, creates, lists and
//! ends sessions, and classifies failures so that a caller cannot learn
//! whether an email address is registered.
//!
//! - [`logic`] holds the service, [`logic::Auth`], and [`login`] the login
//!   itself: as one call against the service's own store, and step by step for
//!   a caller that talks to a store of its own.
//! - [`database`] says what a store is
//!   ([`database::definition::AbstractDatabase`]) and provides an offline store
//!   and a store in memory.
//! - [`entities`], [`config`] and [`util`] hold the data: accounts and
//!   sessions, the configuration, the failures.
//! - [`email`], [`hashing`] and [`ids`] hold what the service is built from:
//!   address validation, Argon2 password hashing, random tokens and ids.
pub mod util;
pub mod hashing;
pub mod ids;
pub mod email;
pub mod config;
pub mod entities;
pub mod database;
pub mod logic;
pub mod login;
