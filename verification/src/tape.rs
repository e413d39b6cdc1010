use vstd::prelude::*;

verus! {

/// The mathematical model of a tape: a sequence of byte cells and a cursor
/// that always addresses one of them. All tape contracts, and the big-step
/// semantics of whole programs, are stated over this model.
#[verifier::ext_equal]
pub ghost struct TapeModel {
    pub cells: Seq<u8>,
    pub cursor: int,
}

impl TapeModel {
    /// The tape invariant: at least one cell exists and the cursor is a
    /// valid index into the cell sequence.
    pub open spec fn wf(self) -> bool {
        0 <= self.cursor < self.cells.len()
    }

    /// A freshly created tape: a single zero cell with the cursor on it.
    pub open spec fn fresh() -> TapeModel {
        TapeModel { cells: seq![0u8], cursor: 0 }
    }

    /// The value of the cell at the cursor.
    pub open spec fn read(self) -> u8 {
        self.cells[self.cursor]
    }

    /// Overwrite the cell at the cursor; no growth, no cursor movement.
    pub open spec fn write(self, v: u8) -> TapeModel {
        TapeModel { cells: self.cells.update(self.cursor, v), cursor: self.cursor }
    }

    /// Advance the cursor one cell to the right. When the cursor leaves the
    /// rightmost cell, exactly one zero cell is appended and the cursor
    /// lands on it; the tape never grows by more than one cell at a time.
    pub open spec fn move_right(self) -> TapeModel {
        if self.cursor + 1 == self.cells.len() {
            TapeModel { cells: self.cells.push(0u8), cursor: self.cursor + 1 }
        } else {
            TapeModel { cells: self.cells, cursor: self.cursor + 1 }
        }
    }

    /// Move the cursor one cell to the left. When the cursor already sits
    /// on the leftmost cell, exactly one zero cell is prepended and the
    /// cursor stays at index 0, now addressing the new cell; every existing
    /// cell keeps its value and shifts up by one index.
    pub open spec fn move_left(self) -> TapeModel {
        if self.cursor > 0 {
            TapeModel { cells: self.cells, cursor: self.cursor - 1 }
        } else {
            TapeModel { cells: self.cells.insert(0, 0u8), cursor: 0 }
        }
    }
}

/// The mutable memory model: a dynamically extensible run of byte cells
/// with a single movable cursor. Cells are never removed or reordered, and
/// every cell created by growth starts at zero.
#[derive(Debug)]
pub struct Tape {
    data: Vec<u8>,
    pos: usize,
}

impl View for Tape {
    type V = TapeModel;

    closed spec fn view(&self) -> TapeModel {
        TapeModel { cells: self.data@, cursor: self.pos as int }
    }
}

impl Tape {
    /// The tape invariant, inherited from the model: the cursor always
    /// addresses an existing cell.
    pub open spec fn wf(&self) -> bool {
        self@.wf()
    }

    /// Create a fresh tape: one zero cell, cursor at index 0.
    pub fn new() -> (t: Tape)
        ensures
            t.wf(),
            t@ == TapeModel::fresh(),
    {
        Tape { data: vec![0u8], pos: 0 }
    }

    /// Return the value of the cell at the cursor.
    pub fn get(&self) -> (v: u8)
        requires
            self.wf(),
        ensures
            v == self@.read(),
    {
        self.data[self.pos]
    }

    /// Overwrite the cell at the cursor with `value`.
    pub fn set(&mut self, value: u8)
        requires
            old(self).wf(),
        ensures
            final(self).wf(),
            final(self)@ == old(self)@.write(value),
    {
        self.data[self.pos] = value;
    }

    /// Advance the cursor one cell to the right, appending a single zero
    /// cell when the cursor moves past the rightmost existing cell.
    pub fn right(&mut self)
        requires
            old(self).wf(),
        ensures
            final(self).wf(),
            final(self)@ == old(self)@.move_right(),
    {
        let n = self.data.len();
        self.pos = self.pos + 1;
        if self.pos == n {
            self.data.push(0);
        }
    }

    /// Move the cursor one cell to the left, prepending a single zero cell
    /// (and leaving the cursor at index 0) when the cursor already sits on
    /// the leftmost cell.
    pub fn left(&mut self)
        requires
            old(self).wf(),
        ensures
            final(self).wf(),
            final(self)@ == old(self)@.move_left(),
    {
        if self.pos > 0 {
            self.pos = self.pos - 1;
        } else {
            self.data.insert(0, 0);
        }
    }

    /// The number of cells the tape currently holds.
    pub fn len(&self) -> (n: usize)
        ensures
            n == self@.cells.len(),
    {
        self.data.len()
    }

    /// The index of the cell the cursor currently addresses.
    pub fn position(&self) -> (p: usize)
        ensures
            p == self@.cursor,
    {
        self.pos
    }
}

} // verus!
