//! Type-safe descriptors for dynamically loaded modules of a C-ABI web server.
//!
//! The library builds the host's module record, its command table and its
//! context block from types that a module author declares, and states in its
//! contracts what each record holds.
pub mod ffi;
pub mod util;
pub mod module;
pub mod http;
pub mod test_util;
