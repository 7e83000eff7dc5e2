//! Planning and bookkeeping for converting blog images to WebP.
//!
//! The library holds the decisions of the converter: which settings are
//! valid, where a converted file goes, when an existing file is kept, which
//! step of a conversion comes next, and how the outcomes of a batch add up.
//! The program around it performs the file-system work and the encoding.

pub mod cli;
pub mod config;
pub mod converter;
pub mod imaging;
pub mod job;
pub mod paths;
pub mod processor;
pub mod text;
