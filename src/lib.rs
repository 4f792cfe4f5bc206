//! Planning of host-runtime bindings for numeric functions.
//!
//! The library decides, from a plain model of a function signature, what
//! wrapper a binding generator emits, and, from the tokens of a module
//! declaration, which wrappers a module registers and in what order.

pub mod laws;
pub mod module;
pub mod naming;
pub mod rewrite;
pub mod syntax;
