//! The decision core of a voice-driven smart-mirror assistant: the
//! conversation store, the decoding of the language model's replies, the
//! routing of commands to tools and the sequencing of one turn.

pub mod calendar_api;
pub mod chat;
pub mod conversation;
pub mod instant;
pub mod json;
pub mod router;
pub mod text_to_speech;
pub mod turn;
pub mod weather_api;
