//! Drawing text on a page, one glyph after the other from left to right.

use crate::font::Font;
use crate::glyph::Glyph;
use crate::page::PixelBuffer;
use vstd::prelude::*;

verus! {

/// Why a text cannot be drawn.
#[derive(Clone, Copy, Debug, PartialEq, Eq, Structural)]
pub enum LayoutFault {
    /// A dot of a glyph that is on would fall outside the page.
    OutOfBounds,
    /// The column after a glyph cannot be counted in a `usize`.
    ColumnOverflow,
}

/// A text that cannot be drawn, with the first character that stands in the
/// way.
#[derive(Clone, Copy, Debug, PartialEq, Eq, Structural)]
pub struct LayoutError {
    /// The place in the text, counted in characters from 0.
    pub index: usize,
    /// What is wrong with the glyph of that character.
    pub fault: LayoutFault,
}

/// The columns by which `ch` moves the text on: the width of its glyph, and
/// none when the font has no glyph for it.
pub open spec fn advance(font: Map<char, Glyph>, ch: char) -> nat {
    if font.contains_key(ch) {
        font[ch].spec_width()
    } else {
        0
    }
}

/// The column after the last glyph of `text` when its first glyph stands at
/// column `start`.
pub open spec fn end_column(text: Seq<char>, font: Map<char, Glyph>, start: int) -> int
    decreases text.len(),
{
    if text.len() == 0 {
        start
    } else {
        end_column(text.drop_last(), font, start) + advance(font, text.last())
    }
}

/// The column at which the glyph of the character at `index` stands.
pub open spec fn column_of(text: Seq<char>, font: Map<char, Glyph>, start: int, index: int) -> int {
    end_column(text.take(index), font, start)
}

/// Whether the glyph of the character at `index` turns the dot at `row` and
/// `column` on: the glyph's top row is row 0 of the page and its left column
/// is the column at which it stands.
pub open spec fn glyph_paints(
    text: Seq<char>,
    font: Map<char, Glyph>,
    start: int,
    index: int,
    row: int,
    column: int,
) -> bool {
    &&& 0 <= index < text.len()
    &&& font.contains_key(text[index])
    &&& font[text[index]].lit(row, column - column_of(text, font, start, index))
}

/// Whether a glyph of `text` turns the dot at `row` and `column` on.
pub open spec fn painted(
    text: Seq<char>,
    font: Map<char, Glyph>,
    start: int,
    row: int,
    column: int,
) -> bool {
    exists|index: int| glyph_paints(text, font, start, index, row, column)
}

/// Whether every dot of `glyph` that is on falls within a page of `width` by
/// `height` dots when the glyph stands at column `at`.
pub open spec fn glyph_fits(glyph: Glyph, at: int, width: int, height: int) -> bool {
    forall|row: int, column: int| #[trigger]
        glyph.lit(row, column) ==> row < height && at + column < width
}

/// What stands in the way of drawing `ch` at column `at`, if anything.
pub open spec fn fault_at(
    font: Map<char, Glyph>,
    ch: char,
    at: int,
    width: int,
    height: int,
) -> Option<LayoutFault> {
    if !font.contains_key(ch) {
        None
    } else if !glyph_fits(font[ch], at, width, height) {
        Some(LayoutFault::OutOfBounds)
    } else if at + font[ch].spec_width() > usize::MAX {
        Some(LayoutFault::ColumnOverflow)
    } else {
        None
    }
}

/// What stands in the way of drawing the character at `index` of `text`.
pub open spec fn fault_of(
    text: Seq<char>,
    font: Map<char, Glyph>,
    start: int,
    width: int,
    height: int,
    index: int,
) -> Option<LayoutFault> {
    fault_at(font, text[index], column_of(text, font, start, index), width, height)
}

/// Whether all of `text` can be drawn from column `start` on a page of
/// `width` by `height` dots.
pub open spec fn drawable(
    text: Seq<char>,
    font: Map<char, Glyph>,
    start: int,
    width: int,
    height: int,
) -> bool {
    forall|index: int|
        0 <= index < text.len() ==> #[trigger] fault_of(text, font, start, width, height, index)
            is None
}

/// Whether `error` names the first character of `text` that cannot be drawn,
/// and what is wrong with it.
pub open spec fn first_fault(
    text: Seq<char>,
    font: Map<char, Glyph>,
    start: int,
    width: int,
    height: int,
    error: LayoutError,
) -> bool {
    &&& error.index < text.len()
    &&& forall|index: int|
        0 <= index < error.index ==> #[trigger] fault_of(text, font, start, width, height, index)
            is None
    &&& fault_of(text, font, start, width, height, error.index as int) == Some(error.fault)
}

/// Whether the font has no glyph for any character of `text`.
pub open spec fn without_glyphs(text: Seq<char>, font: Map<char, Glyph>) -> bool {
    forall|index: int| 0 <= index < text.len() ==> !font.contains_key(#[trigger] text[index])
}

/// The first glyph stands at `start`.
pub proof fn first_column(text: Seq<char>, font: Map<char, Glyph>, start: int)
    ensures
        column_of(text, font, start, 0) == start,
{
    assert(text.take(0).len() == 0);
}

/// Each character moves the text on by the width of its glyph.
pub proof fn next_column(text: Seq<char>, font: Map<char, Glyph>, start: int, index: int)
    requires
        0 <= index < text.len(),
    ensures
        column_of(text, font, start, index + 1) == column_of(text, font, start, index) + advance(
            font,
            text[index],
        ),
{
    let upto = text.take(index + 1);
    assert(upto.drop_last() =~= text.take(index));
    assert(upto.last() == text[index]);
}

/// The column after the last character is the end column of the text.
pub proof fn last_column(text: Seq<char>, font: Map<char, Glyph>, start: int)
    ensures
        column_of(text, font, start, text.len() as int) == end_column(text, font, start),
{
    assert(text.take(text.len() as int) =~= text);
}

/// Columns do not go back: a later character stands at or after an earlier
/// one.
pub proof fn columns_ascend(
    text: Seq<char>,
    font: Map<char, Glyph>,
    start: int,
    earlier: int,
    later: int,
)
    requires
        0 <= earlier <= later <= text.len(),
    ensures
        column_of(text, font, start, earlier) <= column_of(text, font, start, later),
    decreases later - earlier,
{
    if earlier < later {
        columns_ascend(text, font, start, earlier, later - 1);
        next_column(text, font, start, later - 1);
    }
}

/// The dots that a glyph turns on lie in the columns from the one at which
/// it stands up to the one at which the next character stands.
pub proof fn glyph_keeps_to_its_columns(
    text: Seq<char>,
    font: Map<char, Glyph>,
    start: int,
    index: int,
    row: int,
    column: int,
)
    requires
        glyph_paints(text, font, start, index, row, column),
    ensures
        column_of(text, font, start, index) <= column < column_of(text, font, start, index + 1),
        0 <= row < font[text[index]].spec_height(),
{
    next_column(text, font, start, index);
    font[text[index]].lit_is_inside(row, column - column_of(text, font, start, index));
}

/// No dot is turned on by the glyphs of two characters: what an earlier
/// glyph turns on lies to the left of every later one.
pub proof fn glyphs_do_not_overlap(
    text: Seq<char>,
    font: Map<char, Glyph>,
    start: int,
    earlier: int,
    later: int,
    row: int,
    column: int,
)
    requires
        earlier < later <= text.len(),
        glyph_paints(text, font, start, earlier, row, column),
    ensures
        column < column_of(text, font, start, later),
        !glyph_paints(text, font, start, later, row, column),
{
    glyph_keeps_to_its_columns(text, font, start, earlier, row, column);
    columns_ascend(text, font, start, earlier + 1, later);
    if glyph_paints(text, font, start, later, row, column) {
        glyph_keeps_to_its_columns(text, font, start, later, row, column);
    }
}

/// A text of which no character has a glyph ends at the column at which it
/// starts, can be drawn on any page, and turns no dot on. The empty text is
/// such a text.
pub proof fn text_without_glyphs_draws_nothing(
    text: Seq<char>,
    font: Map<char, Glyph>,
    start: int,
    width: int,
    height: int,
)
    requires
        without_glyphs(text, font),
    ensures
        end_column(text, font, start) == start,
        drawable(text, font, start, width, height),
        forall|row: int, column: int| !painted(text, font, start, row, column),
    decreases text.len(),
{
    if text.len() > 0 {
        let front = text.drop_last();
        assert forall|index: int| 0 <= index < front.len() implies !font.contains_key(
            #[trigger] front[index],
        ) by {
            assert(front[index] == text[index]);
        }
        text_without_glyphs_draws_nothing(front, font, start, width, height);
        assert(!font.contains_key(text[text.len() - 1]));
    }
}

/// Whether every dot of `glyph` that is on falls within a page of `width` by
/// `height` dots when the glyph stands at column `at`.
pub fn fits(glyph: &Glyph, at: usize, width: usize, height: usize) -> (yes: bool)
    requires
        glyph.wf(),
    ensures
        yes == glyph_fits(*glyph, at as int, width as int, height as int),
{
    let rows = glyph.height();
    let columns = glyph.width();
    let mut row: usize = 0;
    while row < rows
        invariant
            glyph.wf(),
            rows == glyph.spec_height(),
            columns == glyph.spec_width(),
            row <= rows,
            forall|r: int, c: int|
                0 <= r < row && #[trigger] glyph.lit(r, c) ==> r < height && at + c < width,
        decreases rows - row,
    {
        let mut column: usize = 0;
        while column < columns
            invariant
                glyph.wf(),
                rows == glyph.spec_height(),
                columns == glyph.spec_width(),
                row < rows,
                column <= columns,
                forall|r: int, c: int|
                    0 <= r < row && #[trigger] glyph.lit(r, c) ==> r < height && at + c < width,
                forall|c: int|
                    0 <= c < column && #[trigger] glyph.lit(row as int, c) ==> row < height && at
                        + c < width,
            decreases columns - column,
        {
            if glyph.dot(row, column) {
                let inside = row < height && at < width && column < width - at;
                if !inside {
                    return false;
                }
            }
            column += 1;
        }
        proof {
            assert forall|r: int, c: int| 0 <= r < row + 1 && #[trigger] glyph.lit(r, c) implies r
                < height && at + c < width by {
                glyph.lit_is_inside(r, c);
            }
        }
        row += 1;
    }
    proof {
        assert forall|r: int, c: int| #[trigger] glyph.lit(r, c) implies r < height && at + c
            < width by {
            glyph.lit_is_inside(r, c);
        }
    }
    true
}

/// Finds the column after the last glyph of `text` when its first glyph
/// stands at `start_column`, for a page of `width` by `height` dots. Nothing
/// is drawn.
///
/// The text is refused when a dot that is on would fall outside the page, or
/// when a column cannot be counted; the error names the first such
/// character.
pub fn measure(
    text: &str,
    font: &Font,
    start_column: usize,
    width: usize,
    height: usize,
) -> (result: Result<usize, LayoutError>)
    requires
        font.wf(),
    ensures
        result is Ok <==> drawable(text@, font@, start_column as int, width as int, height as int),
        result matches Ok(end) ==> end == end_column(text@, font@, start_column as int),
        result matches Err(error) ==> first_fault(
            text@,
            font@,
            start_column as int,
            width as int,
            height as int,
            error,
        ),
{
    let count = text.unicode_len();
    let mut column = start_column;
    let mut index: usize = 0;
    proof {
        first_column(text@, font@, start_column as int);
    }
    while index < count
        invariant
            font.wf(),
            count == text@.len(),
            index <= count,
            column == column_of(text@, font@, start_column as int, index as int),
            forall|i: int|
                0 <= i < index ==> #[trigger] fault_of(
                    text@,
                    font@,
                    start_column as int,
                    width as int,
                    height as int,
                    i,
                ) is None,
        decreases count - index,
    {
        let ch = text.get_char(index);
        proof {
            next_column(text@, font@, start_column as int, index as int);
        }
        match font.glyph(ch) {
            Some(glyph) => {
                if !fits(glyph, column, width, height) {
                    assert(fault_of(
                        text@,
                        font@,
                        start_column as int,
                        width as int,
                        height as int,
                        index as int,
                    ) == Some(LayoutFault::OutOfBounds));
                    return Err(LayoutError { index, fault: LayoutFault::OutOfBounds });
                }
                match column.checked_add(glyph.width()) {
                    Some(next) => {
                        column = next;
                    },
                    None => {
                        assert(fault_of(
                            text@,
                            font@,
                            start_column as int,
                            width as int,
                            height as int,
                            index as int,
                        ) == Some(LayoutFault::ColumnOverflow));
                        return Err(LayoutError { index, fault: LayoutFault::ColumnOverflow });
                    },
                }
            },
            None => {},
        }
        index += 1;
    }
    proof {
        last_column(text@, font@, start_column as int);
    }
    Ok(column)
}

/// Turns on the dots of `page` that `glyph` has on, with the glyph's top
/// row on row 0 and its left column on column `at`.
fn blit(page: &mut PixelBuffer, glyph: &Glyph, at: usize)
    requires
        old(page).wf(),
        glyph.wf(),
        glyph_fits(*glyph, at as int, old(page).spec_width() as int, old(page).spec_height() as int),
    ensures
        final(page).wf(),
        final(page).same_size(*old(page)),
        forall|r: int, c: int|
            final(page).lit(r, c) == (old(page).lit(r, c) || glyph.lit(r, c - at)),
{
    let rows = glyph.height();
    let columns = glyph.width();
    let width = page.width();
    let mut row: usize = 0;
    while row < rows
        invariant
            page.wf(),
            glyph.wf(),
            page.same_size(*old(page)),
            width == page.spec_width(),
            glyph_fits(*glyph, at as int, page.spec_width() as int, page.spec_height() as int),
            rows == glyph.spec_height(),
            columns == glyph.spec_width(),
            row <= rows,
            forall|r: int, c: int|
                page.lit(r, c) == (old(page).lit(r, c) || (0 <= r < row && glyph.lit(r, c - at))),
        decreases rows - row,
    {
        let mut column: usize = 0;
        while column < columns
            invariant
                page.wf(),
                glyph.wf(),
                page.same_size(*old(page)),
                width == page.spec_width(),
                glyph_fits(*glyph, at as int, page.spec_width() as int, page.spec_height() as int),
                rows == glyph.spec_height(),
                columns == glyph.spec_width(),
                row < rows,
                column <= columns,
                forall|r: int, c: int|
                    page.lit(r, c) == (old(page).lit(r, c) || (glyph.lit(r, c - at) && (0 <= r < row
                        || (r == row && 0 <= c - at < column)))),
            decreases columns - column,
        {
            if glyph.dot(row, column) {
                let ghost before = *page;
                assert(glyph.lit(row as int, column as int));
                page.put(row, at + column, true);
                proof {
                    assert forall|r: int, c: int|
                        page.lit(r, c) == (old(page).lit(r, c) || (glyph.lit(r, c - at) && (0 <= r
                            < row || (r == row && 0 <= c - at < column + 1)))) by {
                        if r == row && c == at + column {
                        } else {
                            assert(page.lit(r, c) == before.lit(r, c));
                        }
                    }
                }
            }
            column += 1;
        }
        proof {
            assert forall|r: int, c: int|
                page.lit(r, c) == (old(page).lit(r, c) || (0 <= r < row + 1 && glyph.lit(
                    r,
                    c - at,
                ))) by {
                if glyph.lit(r, c - at) {
                    glyph.lit_is_inside(r, c - at);
                }
            }
        }
        row += 1;
    }
    proof {
        assert forall|r: int, c: int|
            page.lit(r, c) == (old(page).lit(r, c) || glyph.lit(r, c - at)) by {
            if glyph.lit(r, c - at) {
                glyph.lit_is_inside(r, c - at);
            }
        }
    }
}

/// Draws `text` on `buffer` with the glyphs of `font`, from left to right,
/// the first glyph at `start_column` and each glyph with its top row on row
/// 0, and returns the column after the last glyph.
///
/// Each character moves the text on by the width of its glyph, whether or
/// not the glyph has a dot that is on. A character without a glyph is left
/// out: it draws nothing and does not move the text on. Dots that were on
/// stay on.
///
/// Nothing is clipped: when a dot that is on would fall outside the page, or
/// a column cannot be counted, the text is refused, the error names the
/// first character that stands in the way, and the page stays as it was.
pub fn render(text: &str, font: &Font, buffer: &mut PixelBuffer, start_column: usize) -> (result:
    Result<usize, LayoutError>)
    requires
        font.wf(),
        old(buffer).wf(),
    ensures
        final(buffer).wf(),
        final(buffer).same_size(*old(buffer)),
        result is Ok <==> drawable(
            text@,
            font@,
            start_column as int,
            old(buffer).spec_width() as int,
            old(buffer).spec_height() as int,
        ),
        result matches Ok(end) ==> {
            &&& end == end_column(text@, font@, start_column as int)
            &&& forall|row: int, column: int|
                final(buffer).lit(row, column) == (old(buffer).lit(row, column) || painted(
                    text@,
                    font@,
                    start_column as int,
                    row,
                    column,
                ))
        },
        result matches Err(error) ==> {
            &&& *final(buffer) == *old(buffer)
            &&& first_fault(
                text@,
                font@,
                start_column as int,
                old(buffer).spec_width() as int,
                old(buffer).spec_height() as int,
                error,
            )
        },
        without_glyphs(text@, font@) ==> result == Ok::<usize, LayoutError>(start_column)
            && *final(buffer) == *old(buffer),
{
    let width = buffer.width();
    let height = buffer.height();
    if let Err(error) = measure(text, font, start_column, width, height) {
        proof {
            if without_glyphs(text@, font@) {
                text_without_glyphs_draws_nothing(
                    text@,
                    font@,
                    start_column as int,
                    width as int,
                    height as int,
                );
            }
        }
        return Err(error);
    }
    let count = text.unicode_len();
    let mut column = start_column;
    let mut index: usize = 0;
    proof {
        first_column(text@, font@, start_column as int);
    }
    while index < count
        invariant
            font.wf(),
            buffer.wf(),
            buffer.same_size(*old(buffer)),
            width == buffer.spec_width(),
            height == buffer.spec_height(),
            count == text@.len(),
            index <= count,
            drawable(text@, font@, start_column as int, width as int, height as int),
            column == column_of(text@, font@, start_column as int, index as int),
            forall|r: int, c: int|
                buffer.lit(r, c) == (old(buffer).lit(r, c) || exists|i: int|
                    i < index && glyph_paints(text@, font@, start_column as int, i, r, c)),
            without_glyphs(text@.take(index as int), font@) ==> *buffer == *old(buffer),
        decreases count - index,
    {
        let ch = text.get_char(index);
        proof {
            next_column(text@, font@, start_column as int, index as int);
            assert(fault_of(
                text@,
                font@,
                start_column as int,
                width as int,
                height as int,
                index as int,
            ) is None);
        }
        let ghost before = *buffer;
        match font.glyph(ch) {
            Some(glyph) => {
                blit(buffer, glyph, column);
                column = column + glyph.width();
                assert(!without_glyphs(text@.take(index + 1), font@)) by {
                    assert(text@.take(index + 1)[index as int] == ch);
                }
            },
            None => {
                assert(without_glyphs(text@.take(index + 1), font@) ==> without_glyphs(
                    text@.take(index as int),
                    font@,
                )) by {
                    if without_glyphs(text@.take(index + 1), font@) {
                        assert forall|i: int| 0 <= i < index implies !font@.contains_key(
                            #[trigger] text@.take(index as int)[i],
                        ) by {
                            assert(text@.take(index + 1)[i] == text@.take(index as int)[i]);
                        }
                    }
                }
            },
        }
        proof {
            assert forall|r: int, c: int|
                buffer.lit(r, c) == (old(buffer).lit(r, c) || exists|i: int|
                    i < index + 1 && glyph_paints(text@, font@, start_column as int, i, r, c)) by {
                let here = glyph_paints(text@, font@, start_column as int, index as int, r, c);
                assert(buffer.lit(r, c) == (before.lit(r, c) || here));
                if exists|i: int|
                    i < index + 1 && glyph_paints(text@, font@, start_column as int, i, r, c) {
                    let i = choose|i: int|
                        i < index + 1 && glyph_paints(text@, font@, start_column as int, i, r, c);
                    if i < index {
                    } else {
                        assert(here);
                    }
                }
            }
        }
        index += 1;
    }
    proof {
        last_column(text@, font@, start_column as int);
        assert(text@.take(index as int) =~= text@);
        if without_glyphs(text@, font@) {
            text_without_glyphs_draws_nothing(
                text@,
                font@,
                start_column as int,
                width as int,
                height as int,
            );
        }
        assert forall|r: int, c: int|
            buffer.lit(r, c) == (old(buffer).lit(r, c) || painted(
                text@,
                font@,
                start_column as int,
                r,
                c,
            )) by {
            if painted(text@, font@, start_column as int, r, c) {
                let i = choose|i: int| glyph_paints(text@, font@, start_column as int, i, r, c);
                assert(i < index && glyph_paints(text@, font@, start_column as int, i, r, c));
            }
        }
    }
    Ok(column)
}

} // verus!
