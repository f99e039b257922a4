//! Laying the strings of a reading out on a page.

use crate::font::Font;
use crate::format::{format_time, time_text, RenderConfig, TimeStrings, TimeText};
use crate::page::PixelBuffer;
use crate::raster::{drawable, end_column, first_fault, painted, render, LayoutError};
use crate::timestamp::Timestamp;
use vstd::prelude::*;

verus! {

/// The column at which the time starts when the hour is written from 00 to
/// 23.
pub const TIME_COLUMN_24_HOUR: usize = 7;

/// The column at which the time starts when the hour is written from 1 to
/// 12, which leaves room for the AM or PM marker.
pub const TIME_COLUMN_12_HOUR: usize = 1;

/// The three fonts of the sign.
#[derive(Clone, Debug)]
pub struct Fonts {
    /// Letters and digits of the date.
    pub main: Font,
    /// The AM or PM marker.
    pub am_pm: Font,
    /// The large digits of the time, seven dots high and wide.
    pub num_7x7: Font,
}

impl Fonts {
    /// Whether the three fonts are well formed.
    pub open spec fn wf(self) -> bool {
        self.main.wf() && self.am_pm.wf() && self.num_7x7.wf()
    }
}

/// One of the strings that make up the page, in the order in which they are
/// drawn.
#[derive(Clone, Copy, Debug, PartialEq, Eq, Structural)]
pub enum Part {
    /// Hour and minute.
    Time,
    /// The AM or PM marker.
    Meridiem,
    /// The date.
    Date,
}

/// Why a page could not be composed.
#[derive(Clone, Copy, Debug, PartialEq, Eq, Structural)]
pub enum ComposeError {
    /// The dots of a page of this size cannot be counted in a `usize`.
    PageTooLarge,
    /// A string does not fit on the page.
    Layout {
        /// The string that does not fit.
        part: Part,
        /// The character that stands in the way, and why.
        error: LayoutError,
    },
}

/// The column at which the time starts.
pub open spec fn time_column(config: RenderConfig) -> int {
    if config.use_24_hour {
        TIME_COLUMN_24_HOUR as int
    } else {
        TIME_COLUMN_12_HOUR as int
    }
}

/// The column after the time, at which the marker starts.
pub open spec fn meridiem_column(strings: TimeText, fonts: Fonts, config: RenderConfig) -> int {
    end_column(strings.time, fonts.num_7x7@, time_column(config))
}

/// The column after the marker, or after the time when there is no marker,
/// at which the date starts.
pub open spec fn date_column(strings: TimeText, fonts: Fonts, config: RenderConfig) -> int {
    match strings.meridiem {
        Some(marker) => end_column(marker, fonts.am_pm@, meridiem_column(strings, fonts, config)),
        None => meridiem_column(strings, fonts, config),
    }
}

/// Whether the time turns the dot at `row` and `column` on.
pub open spec fn time_paints(
    strings: TimeText,
    fonts: Fonts,
    config: RenderConfig,
    row: int,
    column: int,
) -> bool {
    painted(strings.time, fonts.num_7x7@, time_column(config), row, column)
}

/// Whether the marker turns the dot at `row` and `column` on.
pub open spec fn meridiem_paints(
    strings: TimeText,
    fonts: Fonts,
    config: RenderConfig,
    row: int,
    column: int,
) -> bool {
    strings.meridiem matches Some(marker) && painted(
        marker,
        fonts.am_pm@,
        meridiem_column(strings, fonts, config),
        row,
        column,
    )
}

/// Whether the date turns the dot at `row` and `column` on.
pub open spec fn date_paints(
    strings: TimeText,
    fonts: Fonts,
    config: RenderConfig,
    row: int,
    column: int,
) -> bool {
    painted(strings.date, fonts.main@, date_column(strings, fonts, config), row, column)
}

/// Whether the dot at `row` and `column` is on in the page for `strings`:
/// the time in the large digits, then the marker if there is one, then the
/// date in the main font, each where the one before it ends.
pub open spec fn composed(
    strings: TimeText,
    fonts: Fonts,
    config: RenderConfig,
    row: int,
    column: int,
) -> bool {
    ||| time_paints(strings, fonts, config, row, column)
    ||| meridiem_paints(strings, fonts, config, row, column)
    ||| date_paints(strings, fonts, config, row, column)
}

/// Whether the time fits on a page of `width` by `height` dots.
pub open spec fn time_fits(
    strings: TimeText,
    fonts: Fonts,
    config: RenderConfig,
    width: int,
    height: int,
) -> bool {
    drawable(strings.time, fonts.num_7x7@, time_column(config), width, height)
}

/// Whether the marker, if there is one, fits on a page of `width` by
/// `height` dots.
pub open spec fn meridiem_fits(
    strings: TimeText,
    fonts: Fonts,
    config: RenderConfig,
    width: int,
    height: int,
) -> bool {
    strings.meridiem matches Some(marker) ==> drawable(
        marker,
        fonts.am_pm@,
        meridiem_column(strings, fonts, config),
        width,
        height,
    )
}

/// Whether the date fits on a page of `width` by `height` dots.
pub open spec fn date_fits(
    strings: TimeText,
    fonts: Fonts,
    config: RenderConfig,
    width: int,
    height: int,
) -> bool {
    drawable(strings.date, fonts.main@, date_column(strings, fonts, config), width, height)
}

/// Whether the time, the marker and the date all fit on a page of `width` by
/// `height` dots.
pub open spec fn all_fit(
    strings: TimeText,
    fonts: Fonts,
    config: RenderConfig,
    width: int,
    height: int,
) -> bool {
    &&& time_fits(strings, fonts, config, width, height)
    &&& meridiem_fits(strings, fonts, config, width, height)
    &&& date_fits(strings, fonts, config, width, height)
}

/// Whether `part` and `error` say what goes wrong first when `strings` are laid out on
/// a page of `width` by `height` dots: the strings before `part` fit, and
/// `error` is the first fault of `part`.
pub open spec fn first_failure(
    strings: TimeText,
    fonts: Fonts,
    config: RenderConfig,
    width: int,
    height: int,
    part: Part,
    error: LayoutError,
) -> bool {
    match part {
        Part::Time => first_fault(
            strings.time,
            fonts.num_7x7@,
            time_column(config),
            width,
            height,
            error,
        ),
        Part::Meridiem => {
            &&& time_fits(strings, fonts, config, width, height)
            &&& strings.meridiem matches Some(marker)
            &&& first_fault(
                marker,
                fonts.am_pm@,
                meridiem_column(strings, fonts, config),
                width,
                height,
                error,
            )
        },
        Part::Date => {
            &&& time_fits(strings, fonts, config, width, height)
            &&& meridiem_fits(strings, fonts, config, width, height)
            &&& first_fault(
                strings.date,
                fonts.main@,
                date_column(strings, fonts, config),
                width,
                height,
                error,
            )
        },
    }
}

/// Whether the dot at `row` and `column` is on once the strings before
/// `part` have been drawn.
pub open spec fn composed_before(
    strings: TimeText,
    fonts: Fonts,
    config: RenderConfig,
    part: Part,
    row: int,
    column: int,
) -> bool {
    match part {
        Part::Time => false,
        Part::Meridiem => time_paints(strings, fonts, config, row, column),
        Part::Date => time_paints(strings, fonts, config, row, column) || meridiem_paints(
            strings,
            fonts,
            config,
            row,
            column,
        ),
    }
}

/// Whether `page` shows `strings` and nothing else.
pub open spec fn shows(
    page: PixelBuffer,
    strings: TimeText,
    fonts: Fonts,
    config: RenderConfig,
) -> bool {
    forall|row: int, column: int|
        page.lit(row, column) == composed(strings, fonts, config, row, column)
}

/// Whether `page` shows the strings before `part` and nothing else.
pub open spec fn shows_before(
    page: PixelBuffer,
    strings: TimeText,
    fonts: Fonts,
    config: RenderConfig,
    part: Part,
) -> bool {
    forall|row: int, column: int|
        page.lit(row, column) == composed_before(strings, fonts, config, part, row, column)
}

/// Draws `strings` on `page`, over what the page shows: the time in the
/// large digits from column 7 when the hour is written from 00 to 23 and
/// from column 1 otherwise, the marker, if there is one, where the time
/// ends, and the date in the main font where the marker ends.
///
/// When a string does not fit, the strings before it have been drawn, the
/// string itself and those after it have not, and the error names the
/// string and the character that stands in the way.
pub fn lay_out(
    strings: &TimeStrings,
    config: &RenderConfig,
    fonts: &Fonts,
    page: &mut PixelBuffer,
) -> (result: Result<(), ComposeError>)
    requires
        fonts.wf(),
        old(page).wf(),
    ensures
        final(page).wf(),
        final(page).same_size(*old(page)),
        result is Ok <==> all_fit(
            strings@,
            *fonts,
            *config,
            old(page).spec_width() as int,
            old(page).spec_height() as int,
        ),
        result is Ok ==> forall|row: int, column: int|
            final(page).lit(row, column) == (old(page).lit(row, column) || composed(
                strings@,
                *fonts,
                *config,
                row,
                column,
            )),
        result matches Err(failed) ==> {
            &&& failed matches ComposeError::Layout { part, error }
            &&& first_failure(
                strings@,
                *fonts,
                *config,
                old(page).spec_width() as int,
                old(page).spec_height() as int,
                part,
                error,
            )
            &&& forall|row: int, column: int|
                final(page).lit(row, column) == (old(page).lit(row, column) || composed_before(
                    strings@,
                    *fonts,
                    *config,
                    part,
                    row,
                    column,
                ))
        },
{
    let start = if config.use_24_hour {
        TIME_COLUMN_24_HOUR
    } else {
        TIME_COLUMN_12_HOUR
    };
    let after_time = match render(strings.time_string.as_str(), &fonts.num_7x7, page, start) {
        Ok(column) => column,
        Err(error) => {
            return Err(ComposeError::Layout { part: Part::Time, error });
        },
    };
    let after_marker = match &strings.meridiem_string {
        Some(marker) => match render(marker.as_str(), &fonts.am_pm, page, after_time) {
            Ok(column) => column,
            Err(error) => {
                return Err(ComposeError::Layout { part: Part::Meridiem, error });
            },
        },
        None => after_time,
    };
    match render(strings.date_string.as_str(), &fonts.main, page, after_marker) {
        Ok(_) => Ok(()),
        Err(error) => Err(ComposeError::Layout { part: Part::Date, error }),
    }
}

/// Clears `page` and draws the reading `now` on it, as [`lay_out`] draws
/// the strings that [`format_time`] gives for it. No dot of the page keeps
/// what it showed before.
pub fn compose_on(page: &mut PixelBuffer, now: &Timestamp, config: &RenderConfig, fonts: &Fonts) -> (result:
    Result<(), ComposeError>)
    requires
        fonts.wf(),
        old(page).wf(),
    ensures
        final(page).wf(),
        final(page).same_size(*old(page)),
        result is Ok ==> shows(*final(page), time_text(now.seconds(), *config), *fonts, *config),
        result is Ok <==> all_fit(
            time_text(now.seconds(), *config),
            *fonts,
            *config,
            old(page).spec_width() as int,
            old(page).spec_height() as int,
        ),
        result matches Err(failed) ==> {
            &&& failed matches ComposeError::Layout { part, error }
            &&& first_failure(
                time_text(now.seconds(), *config),
                *fonts,
                *config,
                old(page).spec_width() as int,
                old(page).spec_height() as int,
                part,
                error,
            )
            &&& shows_before(
                *final(page),
                time_text(now.seconds(), *config),
                *fonts,
                *config,
                part,
            )
        },
{
    page.clear();
    let strings = format_time(now, config);
    lay_out(&strings, config, fonts, page)
}

/// Makes the page of `width` by `height` dots for the reading `now`: a
/// fresh page, with every dot off, on which the reading is drawn as
/// [`compose_on`] draws it.
pub fn compose(
    now: &Timestamp,
    config: &RenderConfig,
    fonts: &Fonts,
    width: usize,
    height: usize,
) -> (result: Result<PixelBuffer, ComposeError>)
    requires
        fonts.wf(),
    ensures
        result is Ok <==> {
            &&& width * height <= usize::MAX
            &&& all_fit(
                time_text(now.seconds(), *config),
                *fonts,
                *config,
                width as int,
                height as int,
            )
        },
        result matches Ok(page) ==> {
            &&& page.wf()
            &&& page.spec_width() == width
            &&& page.spec_height() == height
            &&& shows(page, time_text(now.seconds(), *config), *fonts, *config)
        },
        result matches Err(failed) ==> match failed {
            ComposeError::PageTooLarge => width * height > usize::MAX,
            ComposeError::Layout { part, error } => width * height <= usize::MAX && first_failure(
                time_text(now.seconds(), *config),
                *fonts,
                *config,
                width as int,
                height as int,
                part,
                error,
            ),
        },
{
    let mut page = match PixelBuffer::new(width, height) {
        Some(page) => page,
        None => {
            return Err(ComposeError::PageTooLarge);
        },
    };
    match compose_on(&mut page, now, config, fonts) {
        Ok(()) => Ok(page),
        Err(failed) => Err(failed),
    }
}

} // verus!
