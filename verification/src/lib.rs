//! Pointer normalization at the boundary of a dynamic message-dispatch
//! runtime.
//!
//! The library reduces every handle shape that can designate a
//! message-eligible value (plain pointers, references, optional references)
//! to one canonical raw-address form, and reports whether that address is
//! null. Addresses are carried as plain `usize` values; the null address
//! is `0`.

pub mod message;
