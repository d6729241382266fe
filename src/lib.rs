//! A minimal binary component model: reference-counted components reached
//! through interface handles, with interface discovery by 128-bit identifier.
pub mod component;
pub mod identifier;
pub mod interface;
pub mod laws;
