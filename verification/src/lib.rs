//! Core of a cross-language FFI binding generator.
//!
//! Given declarations already parsed into the syntax model of [`ast`], this
//! crate classifies their attributes (`#[repr(C)]`, `#[no_mangle]`, doc
//! comments), analyzes function signatures for conventional FFI argument
//! roles (user-data pointers, result pointers, array-plus-length pairs),
//! accumulates generated text into named output files, and defines the
//! contract every target-language backend implements.

pub mod ast;
pub mod common;
pub mod errors;
pub mod text;

pub use errors::Error;
pub use errors::Level;
