//! Command lines.

pub mod args;
pub mod bench;
pub mod profile;
pub mod promises;
pub mod speaker_bin;
