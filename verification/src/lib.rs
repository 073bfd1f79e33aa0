//! An in-memory representation for a small expression language's abstract
//! syntax, a lossless bridge between the six-shape generic value model a
//! parsing collaborator produces and the host's native dynamic value, and a
//! generic, schema-tolerant search that locates a named binding anywhere
//! inside a tree in dynamic-value shape.
//!
//! Nothing here evaluates the language: the library only builds, converts,
//! and searches syntax trees. Every component is pure, synchronous and
//! reentrant, and both the bridge and the resolver bound their recursion
//! depth explicitly.

pub mod bridge;
pub mod grammar;
pub mod json;
pub mod resolver;
pub mod value;
