//! The pixel page: a grid of dots of fixed size, each on or off.

use vstd::prelude::*;

verus! {

/// A dot outside the page was addressed.
#[derive(Clone, Copy, Debug, PartialEq, Eq, Structural)]
pub struct OutOfBounds {
    /// The row that was asked for.
    pub row: usize,
    /// The column that was asked for.
    pub column: usize,
}

/// `row * width + column` lies within `width * height` for a dot of the grid.
proof fn cell_in_range(row: int, column: int, width: int, height: int)
    requires
        0 <= row < height,
        0 <= column < width,
    ensures
        0 <= row * width + column < width * height,
{
    assert(row * width + column < (row + 1) * width) by (nonlinear_arith)
        requires
            0 <= column < width,
    ;
    assert((row + 1) * width <= height * width) by (nonlinear_arith)
        requires
            0 <= row + 1 <= height,
            0 <= width,
    ;
    assert(0 <= row * width) by (nonlinear_arith)
        requires
            0 <= row,
            0 <= width,
    ;
    assert(height * width == width * height) by (nonlinear_arith);
}

/// Two dots of the grid that share a cell are the same dot.
proof fn cell_is_one_dot(row: int, column: int, other_row: int, other_column: int, width: int)
    requires
        0 <= column < width,
        0 <= other_column < width,
        row * width + column == other_row * width + other_column,
    ensures
        row == other_row,
        column == other_column,
{
    assert(row == other_row) by (nonlinear_arith)
        requires
            0 <= column < width,
            0 <= other_column < width,
            row * width + column == other_row * width + other_column,
    {
        if row < other_row {
            assert((other_row - row) * width >= width);
        } else if row > other_row {
            assert((row - other_row) * width >= width);
        }
    }
}

/// A page of `width` by `height` dots. Row 0 is the top row and column 0 the
/// left column. The size is fixed when the page is made.
#[derive(Clone, Debug, PartialEq, Eq)]
pub struct PixelBuffer {
    width: usize,
    height: usize,
    cells: Vec<bool>,
}

impl PixelBuffer {
    /// Whether the page holds one cell for each of its dots. Every page that
    /// this crate hands out does.
    pub closed spec fn wf(self) -> bool {
        self.cells.len() == self.width * self.height
    }

    /// The number of columns.
    pub closed spec fn spec_width(self) -> nat {
        self.width as nat
    }

    /// The number of rows.
    pub closed spec fn spec_height(self) -> nat {
        self.height as nat
    }

    /// Whether the dot at `row` and `column` is on. No dot outside the page
    /// is on.
    pub closed spec fn lit(self, row: int, column: int) -> bool {
        &&& 0 <= row < self.height
        &&& 0 <= column < self.width
        &&& self.cells@[row * self.width + column]
    }

    /// Whether no dot of the page is on.
    pub open spec fn blank(self) -> bool {
        forall|row: int, column: int| !self.lit(row, column)
    }

    /// Whether `self` and `other` have the same size.
    pub open spec fn same_size(self, other: PixelBuffer) -> bool {
        self.spec_width() == other.spec_width() && self.spec_height() == other.spec_height()
    }

    /// Makes a page with every dot off, or `None` when `width * height`
    /// dots cannot be counted in a `usize`.
    pub fn new(width: usize, height: usize) -> (made: Option<PixelBuffer>)
        ensures
            made is Some <==> width * height <= usize::MAX,
            made matches Some(page) ==> page.wf() && page.spec_width() == width
                && page.spec_height() == height && page.blank(),
    {
        match width.checked_mul(height) {
            Some(count) => {
                let cells = vec![false; count];
                let page = PixelBuffer { width, height, cells };
                proof {
                    assert forall|row: int, column: int| !page.lit(row, column) by {
                        if 0 <= row < height && 0 <= column < width {
                            cell_in_range(row, column, width as int, height as int);
                            assert(cloned(false, page.cells@[row * width + column]));
                        }
                    }
                }
                Some(page)
            },
            None => None,
        }
    }

    /// The number of columns.
    pub fn width(&self) -> (w: usize)
        ensures
            w == self.spec_width(),
    {
        self.width
    }

    /// The number of rows.
    pub fn height(&self) -> (h: usize)
        ensures
            h == self.spec_height(),
    {
        self.height
    }

    /// The dot at `row` and `column`: `Some(true)` when it is on, `None`
    /// when it lies outside the page.
    pub fn get(&self, row: usize, column: usize) -> (dot: Option<bool>)
        requires
            self.wf(),
        ensures
            dot is Some <==> row < self.spec_height() && column < self.spec_width(),
            dot matches Some(on) ==> on == self.lit(row as int, column as int),
    {
        if row < self.height && column < self.width {
            proof {
                cell_in_range(row as int, column as int, self.width as int, self.height as int);
            }
            Some(self.cells[row * self.width + column])
        } else {
            None
        }
    }

    /// Turns the dot at `row` and `column` on or off. The dot lies within
    /// the page; every other dot stays as it is.
    pub(crate) fn put(&mut self, row: usize, column: usize, on: bool)
        requires
            old(self).wf(),
            row < old(self).spec_height(),
            column < old(self).spec_width(),
        ensures
            final(self).wf(),
            final(self).same_size(*old(self)),
            final(self).lit(row as int, column as int) == on,
            forall|r: int, c: int|
                !(r == row && c == column) ==> final(self).lit(r, c) == old(self).lit(r, c),
    {
        proof {
            cell_in_range(row as int, column as int, self.width as int, self.height as int);
        }
        let cell = row * self.width + column;
        self.cells.set(cell, on);
        proof {
            assert forall|r: int, c: int| !(r == row && c == column) implies self.lit(r, c) == old(
                self,
            ).lit(r, c) by {
                if 0 <= r < self.height && 0 <= c < self.width {
                    cell_in_range(r, c, self.width as int, self.height as int);
                    if r * self.width + c == cell {
                        cell_is_one_dot(r, c, row as int, column as int, self.width as int);
                    }
                }
            }
        }
    }

    /// Turns the dot at `row` and `column` on or off, and leaves every other
    /// dot as it is. A dot outside the page is refused, and the page stays
    /// as it is.
    pub fn set(&mut self, row: usize, column: usize, on: bool) -> (done: Result<(), OutOfBounds>)
        requires
            old(self).wf(),
        ensures
            final(self).wf(),
            final(self).same_size(*old(self)),
            done is Ok <==> row < old(self).spec_height() && column < old(self).spec_width(),
            done is Ok ==> final(self).lit(row as int, column as int) == on,
            done is Ok ==> forall|r: int, c: int|
                !(r == row && c == column) ==> final(self).lit(r, c) == old(self).lit(r, c),
            done matches Err(e) ==> e.row == row && e.column == column && *final(self) == *old(
                self,
            ),
    {
        if row < self.height && column < self.width {
            self.put(row, column, on);
            Ok(())
        } else {
            Err(OutOfBounds { row, column })
        }
    }

    /// Turns every dot off.
    pub fn clear(&mut self)
        requires
            old(self).wf(),
        ensures
            final(self).wf(),
            final(self).same_size(*old(self)),
            final(self).blank(),
    {
        let count = self.cells.len();
        let mut cell: usize = 0;
        while cell < count
            invariant
                cell <= count,
                count == self.cells@.len(),
                self.width == old(self).width,
                self.height == old(self).height,
                count == self.width * self.height,
                forall|k: int| 0 <= k < cell ==> !self.cells@[k],
            decreases count - cell,
        {
            self.cells.set(cell, false);
            cell += 1;
        }
        proof {
            assert forall|row: int, column: int| !self.lit(row, column) by {
                if 0 <= row < self.height && 0 <= column < self.width {
                    cell_in_range(row, column, self.width as int, self.height as int);
                }
            }
        }
    }
}

} // verus!
