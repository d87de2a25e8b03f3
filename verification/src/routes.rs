//! The request handlers of the service.
pub mod health_check;
pub mod subscriptions;
