pub mod gemini;

pub use gemini::GeminiClient;
