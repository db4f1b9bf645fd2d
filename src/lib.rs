//! Moderation decisions for a multi-tenant chat service: per-guild policy,
//! classification verdicts and the ordered enforcement steps for a message.

pub mod classify;
pub mod decimal;
pub mod enforce;
pub mod policy;
pub mod store;
