//! The HTTP server: its start-up arguments, its requests and its jobs.

pub mod answers;
pub mod api_error;
pub mod arguments;
pub mod config;
pub mod http;
pub mod job_promises;
pub mod jobs;
pub mod mode;
pub mod promises;
pub mod speech;
pub mod store;
pub mod voice;
