//! Raw input decoding: device enumeration records, capability records,
//! registration requests and the two-phase decoding of raw input events,
//! all as functions on plain values and bytes.
//!
//! The operating system is never called from here. A caller performs each
//! query and hands in what came back: the bytes of a successful fetch, or
//! the status code of a failed one with the buffer as the call left it.
//! Records are laid out as the 64-bit platform ABI lays them out, integers
//! least-significant byte first.

pub mod bytes;
pub mod error;
pub mod device;
pub mod event;
pub mod query;
pub mod directory;
pub mod decoder;
pub mod registration;
pub mod window;
pub mod laws;
