//! Adapter between a generic completion / embedding abstraction and the
//! Cohere HTTP API: request shaping, response classification and schema
//! conversion, with machine-checked contracts.

pub mod chat;
pub mod client;
pub mod completion;
pub mod embed;
pub mod embeddings;
pub mod json;
pub mod text;
pub mod tools;
pub mod vecs;
