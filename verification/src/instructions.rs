use vstd::prelude::*;

verus! {

/// One node of the instruction tree. A program is an ordered sequence of
/// nodes; a `Loop` node owns its body, so the tree is acyclic by
/// construction and immutable once built.
#[derive(Debug, PartialEq, Eq)]
pub enum Instruction {
    /// Add one to the cell at the cursor, wrapping 255 back to 0.
    Inc,
    /// Subtract one from the cell at the cursor, wrapping 0 back to 255.
    Dec,
    /// Move the cursor one cell to the left, growing the tape at the front
    /// when the cursor already sits on the leftmost cell.
    Left,
    /// Move the cursor one cell to the right, growing the tape at the back
    /// when the cursor already sits on the rightmost cell.
    Right,
    /// Pull one byte from the input source into the cell at the cursor.
    Read,
    /// Push the value of the cell at the cursor to the output sink.
    Write,
    /// Run the body repeatedly while the cell at the cursor is non-zero,
    /// re-checking only after each full pass over the body.
    Loop(Vec<Instruction>),
}

} // verus!
