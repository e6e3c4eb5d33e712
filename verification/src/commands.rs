//! What the bot's commands answer.

pub mod execute_code;
pub mod languages;
