//! Extraction of export symbol names from PE32+ images.
//!
//! The crate walks the binary structure of a 64-bit Portable Executable held
//! in memory: it validates the DOS and NT headers, reads the section table,
//! translates relative virtual addresses to file offsets, locates the export
//! directory and decodes its table of NUL-terminated ASCII names. Every step
//! is specified against a mathematical model of the byte image and verified.

pub mod bytes;
pub mod error;
pub mod export_dir;
pub mod extract;
pub mod headers;
pub mod names;
pub mod sections;
