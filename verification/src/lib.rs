//! A proxy core for the Google Gemini chat-completion API.
//!
//! The crate translates vendor-independent completion requests into the
//! Gemini wire schema, decides how a call is retried, and translates the
//! vendor's answer back. Every function here is pure: the caller performs
//! the network calls and the waits that the decisions ask for.

pub mod agnostic;
pub mod api;
pub mod handlers;
pub mod json;
pub mod milli;
pub mod power;
pub mod text;
pub mod types;
