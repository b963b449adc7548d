//! Posting a message to a Slack webhook: the settings and their validation, the dialogue
//! that asks for them, and the choice of what is posted where.

pub mod args;
pub mod config;
pub mod dialogue;
pub mod error;
pub mod message;
pub mod text;
pub mod validate;
