//! A comic collection served over HTTP: the rules of the resource server.
//!
//! Bearer tokens are checked against a shared secret, list requests are turned
//! into bounded fetch specifications, and every operation on the collection
//! decides from the record store's answers what to ask next and which
//! response to send. The store itself is reached by whoever drives the
//! operations; a table in memory gives its behaviour a precise meaning,
//! against which the operations are proved from request to response.

pub mod number;
pub mod models;
pub mod paging;
pub mod auth;
pub mod api;
pub mod store;
pub mod service;
pub mod database;
