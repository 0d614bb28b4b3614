//! Subscription relay: turns inbound chat events into typed commands and
//! domain requests, and renders responses and styled text back into messages.

pub mod application;
pub mod models;
pub mod settings;
pub mod telegram;
pub mod text;
