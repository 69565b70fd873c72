//! A small user-management library: an embedded-store data-access layer with
//! pooled connections, an in-memory model of its single `users` table, and the
//! request-level mapping of operation outcomes to status codes and response
//! envelopes.

pub mod db;
pub mod errors;
pub mod handlers;
pub mod models;
pub mod store;
