//! The audio tokenizer decoder: its configuration, its tensors and its compute graph.

pub mod audio;
pub mod codebook;
pub mod config;
pub mod decode;
pub mod extents;
pub mod graph;
pub mod names;
pub mod network;
pub mod order;
pub mod promises;
pub mod published;
pub mod roles;
pub mod shape;
pub mod tensors;
pub mod weights;
