//! The decisions of a photo classifier's client for a local Ollama server: how many visual
//! tokens an image may cost, how far it is scaled down, what is sent, how the reply is read,
//! and how long a helper process is waited for.

pub mod llm;
pub mod platform;
