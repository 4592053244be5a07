//! Scheduling helpers that are not services themselves.

pub mod background_service;
pub mod batch_forwarding;
