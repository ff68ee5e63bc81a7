//! The verified core of ghostfeed, a bridge between Instagram direct messages and Discord.

pub mod constants;
pub mod discord;
pub mod engine;
pub mod error;
pub mod json;
pub mod server;
pub mod service;
pub mod state;
pub mod text;
pub mod webhook_server;

pub use engine::{Convo, ConvoParticipant, Engine};
pub use error::Error;
pub use json::JsonValue;
pub use service::{handle_service_result, TaskResult, TaskResultKind};
pub use state::State;
pub use webhook_server::InstagramWebhookParams;
