//! A lightweight publish/subscribe notification server library: topic and
//! message rules, credential parsing, access control and request decisions.

pub mod auth;
pub mod config;
pub mod error;
pub mod message;
pub mod publish;
pub mod schema;
pub mod state;
pub mod subscribe;
pub mod text;
pub mod webpush;
