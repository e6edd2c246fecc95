//! Newsletter subscription and delivery: the idempotent publish pipeline and
//! the delivery-queue worker, over a transactional in-memory store.

pub mod error;
pub mod domain;
pub mod response;
pub mod ambient;
pub mod store;
pub mod idempotency;
pub mod newsletter;
pub mod worker;
pub mod laws;
pub mod subscriptions;
pub mod authentication;
pub mod controller;
