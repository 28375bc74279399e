//! An in-memory message-queue engine with visibility timeouts, and the
//! request handling of a query-protocol front end on top of it.

pub mod api;
pub mod deps;
pub mod queue;
pub mod registry;
pub mod text;
