//! Re-exports of all service types for convenient access.

pub use crate::domains::DomainsSvc;
pub use crate::emails::EmailsSvc;
pub use crate::templates::TemplatesSvc;
pub use crate::webhooks::WebhooksSvc;
