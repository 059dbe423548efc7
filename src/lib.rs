//! An in-memory store of questions and of the answers attached to them,
//! with the pagination, error classification and request handling that
//! sit in front of it.

pub mod question;
pub mod answer;
pub mod error;
pub mod pagination;
pub mod store;
pub mod routes;
