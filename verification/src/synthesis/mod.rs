//! From a request to audio.

pub mod engine;
pub mod frames;
pub mod pipelined;
pub mod promises;
pub mod request;
pub mod speaker;
pub mod timings;
