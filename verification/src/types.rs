pub mod gemini;
pub mod state;
pub mod wire;
