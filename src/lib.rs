//! Subscription management for a newsletter: validated subscriber identity,
//! confirmation tokens, the subscriber and token stores, and the registration
//! and confirmation state machines that compose them.

pub mod configuration;
pub mod domain;
pub mod email_client;
pub mod routes;
pub mod service;
pub mod store;
pub mod text;
