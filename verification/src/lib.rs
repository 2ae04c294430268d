//! A verified decoder for the PMX binary 3D-model exchange format.
//!
//! PMX is a self-describing little-endian format: the widths of several index
//! fields and the text encoding are themselves read from the file's globals
//! block. The decoder turns a fully loaded byte buffer into a strongly typed
//! model, or reports exactly why the buffer is malformed. Floating-point
//! fields are carried as their IEEE-754 little-endian bit patterns, so the
//! decode is exact on every host.
//!
//! Each reader is specified by a spec function over the byte sequence and
//! proved to implement it; `parser::spec_parse` composes them into the
//! meaning of a whole file, and `truncation` proves that no shortened buffer
//! ever decodes to a silently different result. The `memory` and
//! `shader_property` modules hold small engine-side helpers that live with
//! the decoder.

pub mod error;
pub mod fbits;
pub mod globals;
pub mod header;
pub mod material;
pub mod memory;
pub mod parser;
pub mod shader_property;
pub mod surface;
pub mod text;
pub mod truncation;
pub mod utils;
pub mod vertex;
