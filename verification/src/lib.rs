//! An identity-scoped registry of users, courses, videos and hackathons.
//!
//! Every operation names the caller it acts for. The registry owns one store
//! per kind of entity, hands out fresh numeric identifiers, and lets only an
//! entity's owner or an administrator change or delete it.

pub mod entity;
pub mod error;
pub mod identity;
pub mod laws;
pub mod ids;
pub mod model;
pub mod registry;
pub mod store;
