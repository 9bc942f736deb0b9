//! Username/password authentication with server-side sessions.
//!
//! The service never talks to its backing store itself. Each operation is a
//! small protocol: it asks one store query at a time and is resumed with the
//! reply, until it finishes with the response for the client. Whoever owns the
//! connection to the store carries the queries out.
//!
//! `service` holds the four operations and the session manager, `store` the
//! queries, the replies and a model of the two tables. `script` says what a
//! run of an operation against such tables is; `guarantees` and `invariants`
//! prove what the runs do and what they keep. `memory` is a store that keeps
//! the tables in memory. `hasher`, `token` and `clock` are the three things
//! the service takes from outside: password digests, random session tokens
//! and the time.

pub mod clock;
pub mod guarantees;
pub mod hasher;
pub mod invariants;
pub mod memory;
pub mod notice;
pub mod script;
pub mod service;
pub mod store;
pub mod token;
