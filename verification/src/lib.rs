//! A verified library for splitting text into colored segments.
//!
//! The segmenter partitions a text's characters into consecutive chunks and
//! assigns each chunk a color by cycling through a palette. The crate also
//! extracts 32-digit hexadecimal identifiers from pasted links and models the
//! application's configuration record.

pub mod colors;
pub mod configuration;
pub mod link;
pub mod segment;

pub use colors::ColorPalette;
pub use colors::ColorToken;
pub use configuration::AppConfig;
