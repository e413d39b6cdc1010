//! A tree-walking interpreter for a minimal imperative language over an
//! infinite, bidirectionally growable byte tape.
//!
//! The crate pairs a mutable memory model (`tape::Tape`) with a recursive
//! executor (`executor`) that walks a parsed instruction tree against that
//! tape, reading bytes from an input source and emitting bytes to an output
//! sink. The meaning of a program is pinned down once, by the fueled
//! big-step semantics in `semantics`; the executor is proved to agree with
//! it exactly, and `laws` states the headline properties of that semantics.

pub mod channels;
pub mod executor;
pub mod instructions;
pub mod laws;
pub mod semantics;
pub mod tape;
