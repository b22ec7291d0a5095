//! The verified core of a small link-aggregation and discussion site:
//! accounts with hashed credentials, signed session tokens, posts with
//! threaded comments, and the submission workflow that ties an acting
//! user to the content it creates.
//!
//! The surrounding HTTP layer (routing, templates, cookies, storage
//! plumbing) lives outside this crate and talks to the core through
//! plain values.

pub mod clock;
pub mod credentials;
pub mod errors;
pub mod hashing;
pub mod models;
pub mod repository;
pub mod session;
pub mod workflow;
