//! Services around the core.

pub mod webhook;

pub use webhook::WebhookSender;
