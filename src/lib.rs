//! The data layer of a social-feed client: post normalisation, per-feed deduplication and
//! pagination, the session and completion state kept by the owner of the interface, and
//! the decisions of the remote actions.
pub mod post;
pub mod feed;
pub mod error;
pub mod profile;
pub mod session;
pub mod actions;
pub mod resources;
