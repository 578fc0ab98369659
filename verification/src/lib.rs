//! Batch optimization of raster images: the decisions of the optimization
//! engine, with the codecs, the scorer and the file system kept at arm's
//! length behind plain values.

pub mod batch;
pub mod commands;
pub mod config;
pub mod image_processing;
pub mod paths;
pub mod state;
pub mod task;
pub mod text;
pub mod utils;
