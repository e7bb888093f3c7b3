//! Decision logic of a stack walk driven by a native unwinding provider.
//!
//! The provider itself (context capture, cursor stepping, register queries)
//! is reached by the embedding program; this library decides what to ask it,
//! how to read its answers, and when a walk is over.

pub mod abi;
pub mod cursor;
pub mod frame;
pub mod trace;
