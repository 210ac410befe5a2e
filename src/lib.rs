//! Request planning and outcome rules for a desktop client of an
//! Ollama-compatible inference server.
pub mod api;
pub mod json;
pub mod laws;
pub mod status;
pub mod text;
