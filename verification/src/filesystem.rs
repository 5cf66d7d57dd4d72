//! File filtering.

pub mod filters;

pub use filters::is_yara_file;
