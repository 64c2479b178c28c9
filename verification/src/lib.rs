//! Archive member indexing for an image viewer.
//!
//! The core of this crate parses ZIP, RAR4 and RAR5 containers held in a
//! byte buffer and produces, for each member file, its byte range inside
//! the buffer, its uncompressed size and its compression kind, so that a
//! caller can decode only the members it needs.

pub mod archive_reader;
pub mod compress_deflate;
pub mod file_checker;
pub mod controller;
pub mod model;
pub mod primitives;
pub mod rar_handler;
pub mod reader_rar4;
pub mod reader_rar5;
pub mod reader_zip;
pub mod sort_filename;
pub mod text;
pub mod view;
