//! The handlers, one module per route.

pub mod health_check;
pub mod subscription;
