//! What the HTTP handlers decide: the shapes of requests and responses, and the checks
//! made on them before and after the service calls.
pub mod auth;
pub mod integrations;
pub mod notifications;
pub mod settings;
pub mod users;
