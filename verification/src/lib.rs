//! Qwen3 TTS: the verified core of a native text-to-speech runtime.

pub mod backend;
pub mod backend_search;
pub mod cli;
pub mod error;
pub mod paths;
pub mod real32;
pub mod server;
pub mod support;
pub mod synthesis;
pub mod text;
pub mod vocoder;
pub mod voice_clone_prompt;
pub mod wav;
