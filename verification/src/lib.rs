//! An in-memory inbox for webhook deliveries: the most recent deliveries are
//! retained in arrival order and listed behind a shared-secret check.

pub mod ascii;
pub mod clock;
pub mod config;
pub mod error_page;
pub mod json;
pub mod record;
pub mod response;
pub mod router;
pub mod secret;
pub mod shared;
pub mod store;
pub mod webhooks;
