//! Core of a chat playground for OpenAI-compatible chat-completion APIs: the
//! request model, the decoding of the streamed completion events, and the
//! session state machine that applies a running completion to a conversation.
pub mod delta;
pub mod chat;
pub mod openai;
pub mod settings;
