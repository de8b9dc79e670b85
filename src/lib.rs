//! A small file utility: a streaming downloader built around a shared
//! transfer buffer, plus the decisions of its delete and move actions.

pub mod transfer;
pub mod pipeline;
pub mod cli;
pub mod progress;
pub mod console;
