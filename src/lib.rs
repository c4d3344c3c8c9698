//! Marshalling of strings into NUL-terminated byte buffers for C-ABI consumers.
pub mod errors;
pub mod functions;
