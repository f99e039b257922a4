//! Glyph bitmaps.

use vstd::prelude::*;

verus! {

/// The bitmap of one character in one font: `height` rows of `width` dots,
/// the top row first. A glyph of no rows still has a width, by which the
/// text moves on.
#[derive(Clone, Debug, PartialEq, Eq)]
pub struct Glyph {
    width: usize,
    rows: Vec<Vec<bool>>,
}

impl Glyph {
    /// Whether every row is `width` dots long. Every glyph that this crate
    /// hands out is so.
    pub closed spec fn wf(self) -> bool {
        forall|row: int| 0 <= row < self.rows.len() ==> (#[trigger] self.rows@[row]).len() == self.width
    }

    /// The number of columns.
    pub closed spec fn spec_width(self) -> nat {
        self.width as nat
    }

    /// The number of rows.
    pub closed spec fn spec_height(self) -> nat {
        self.rows.len() as nat
    }

    /// Whether the dot at `row` and `column` is on. No dot outside the
    /// bitmap is on.
    pub closed spec fn lit(self, row: int, column: int) -> bool {
        &&& 0 <= row < self.rows.len()
        &&& 0 <= column < self.width
        &&& self.rows@[row]@[column]
    }

    /// A dot that is on lies within the bitmap.
    pub proof fn lit_is_inside(self, row: int, column: int)
        requires
            self.lit(row, column),
        ensures
            0 <= row < self.spec_height(),
            0 <= column < self.spec_width(),
    {
    }

    /// Makes a glyph of `width` columns from its rows, or `None` when a row
    /// is not `width` dots long.
    pub fn new(width: usize, rows: Vec<Vec<bool>>) -> (made: Option<Glyph>)
        ensures
            made is Some <==> forall|row: int|
                0 <= row < rows.len() ==> (#[trigger] rows@[row]).len() == width,
            made matches Some(glyph) ==> {
                &&& glyph.wf()
                &&& glyph.spec_width() == width
                &&& glyph.spec_height() == rows.len()
                &&& forall|row: int, column: int|
                    glyph.lit(row, column) == (0 <= row < rows.len() && 0 <= column < width
                        && rows@[row]@[column])
            },
    {
        let mut row: usize = 0;
        while row < rows.len()
            invariant
                row <= rows.len(),
                forall|r: int| 0 <= r < row ==> (#[trigger] rows@[r]).len() == width,
            decreases rows.len() - row,
        {
            if rows[row].len() != width {
                return None;
            }
            row += 1;
        }
        Some(Glyph { width, rows })
    }

    /// The number of columns.
    pub fn width(&self) -> (w: usize)
        ensures
            w == self.spec_width(),
    {
        self.width
    }

    /// The number of rows.
    pub fn height(&self) -> (h: usize)
        ensures
            h == self.spec_height(),
    {
        self.rows.len()
    }

    /// Whether the dot at `row` and `column`, which lies within the bitmap,
    /// is on.
    pub(crate) fn dot(&self, row: usize, column: usize) -> (on: bool)
        requires
            self.wf(),
            row < self.spec_height(),
            column < self.spec_width(),
        ensures
            on == self.lit(row as int, column as int),
    {
        self.rows[row][column]
    }

    /// The dot at `row` and `column`: `Some(true)` when it is on, `None`
    /// when it lies outside the bitmap.
    pub fn get(&self, row: usize, column: usize) -> (dot: Option<bool>)
        requires
            self.wf(),
        ensures
            dot is Some <==> row < self.spec_height() && column < self.spec_width(),
            dot matches Some(on) ==> on == self.lit(row as int, column as int),
    {
        if row < self.rows.len() && column < self.width {
            Some(self.rows[row][column])
        } else {
            None
        }
    }
}

} // verus!
