//! An in-memory user service: a record store keyed by user id and the request
//! handlers that sit between an HTTP router and that store.
//!
//! Every function states what it returns and how it changes the store, over the
//! store's view as a map from ids to records.
//!
//! - [`user`]: the records and the create request.
//! - [`store`]: the record store and its five operations.
//! - [`handlers`]: one handler per request, from store and input to reply.
//! - [`fresh`]: identifiers and timestamps, drawn from outside.
//! - [`records`]: how a duplicate-free sequence of records stands for a map.
//! - [`laws`]: what holds across several calls.

pub mod fresh;
pub mod handlers;
pub mod laws;
pub mod records;
pub mod store;
pub mod user;
