//! Notification dispatch core for a GitHub follower webhook: authenticity
//! checks on inbound deliveries, the accept/reject decision on events, and
//! the fan-out policy that folds per-channel outcomes into one verdict.

pub mod config;
pub mod handlers;
pub mod models;
pub mod services;
pub mod signature;

pub use config::Config;
pub use handlers::handle_webhook;
pub use services::NotificationManager;
