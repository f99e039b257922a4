use flipdot_clock::compose::{compose, compose_on, lay_out, ComposeError, Part, TIME_COLUMN_12_HOUR, TIME_COLUMN_24_HOUR};
use flipdot_clock::font::Font;
use flipdot_clock::format::{RenderConfig, TimeStrings};
use flipdot_clock::glyph::Glyph;
use flipdot_clock::page::PixelBuffer;
use flipdot_clock::raster::{LayoutError, LayoutFault};
use flipdot_clock::timestamp::Timestamp;
use flipdot_clock::{Clock, Fonts};

/// A glyph seven rows high with one dot on: the leftmost dot of row `row`.
fn mark(width: usize, row: usize) -> Glyph {
    let rows = (0..7).map(|r| (0..width).map(|c| r == row && c == 0).collect()).collect();
    Glyph::new(width, rows).expect("rows of one width")
}

fn blank(width: usize) -> Glyph {
    Glyph::new(width, Vec::new()).expect("no rows")
}

/// The large digits mark row 0, the AM and PM letters row 1 and the main
/// font row 2, so that a page shows where each glyph stands.
fn fonts() -> Fonts {
    let mut num_7x7 = Font::new();
    for digit in "0123456789".chars() {
        num_7x7.insert(digit, mark(7, 0));
    }
    num_7x7.insert(':', mark(3, 0));
    num_7x7.insert(' ', blank(7));
    let mut am_pm = Font::new();
    for letter in "APM".chars() {
        am_pm.insert(letter, mark(6, 1));
    }
    let mut main = Font::new();
    for letter in "ABCDEFGHIJKLMNOPQRSTUVWXYZ0123456789".chars() {
        main.insert(letter, mark(5, 2));
    }
    main.insert(' ', blank(3));
    main.insert('\u{2009}', blank(1));
    Fonts { main, am_pm, num_7x7 }
}

fn config(use_24_hour: bool, show_day_of_week: bool) -> RenderConfig {
    RenderConfig { use_24_hour, show_day_of_week }
}

/// The columns of the dots that are on in `row`.
fn marks(page: &PixelBuffer, row: usize) -> Vec<usize> {
    (0..page.width()).filter(|&column| page.get(row, column) == Some(true)).collect()
}

// 2024-02-28 14:05:00, a Wednesday
fn afternoon() -> Timestamp {
    Timestamp::new(1_709_129_100, 0).unwrap()
}

#[test]
fn the_layout_columns() {
    assert_eq!(TIME_COLUMN_24_HOUR, 7);
    assert_eq!(TIME_COLUMN_12_HOUR, 1);
}

#[test]
fn twenty_four_hour_page_starts_at_column_seven() {
    let page = compose(&afternoon(), &config(true, false), &fonts(), 90, 7).unwrap();
    assert_eq!((page.width(), page.height()), (90, 7));
    // "14:05" from column 7
    assert_eq!(marks(&page, 0), vec![7, 14, 21, 24, 31]);
    // no marker
    assert_eq!(marks(&page, 1), Vec::<usize>::new());
    // " FEB 28" from column 38: the space and the narrow space have no dot
    assert_eq!(marks(&page, 2), vec![41, 46, 51, 57, 62]);
    for row in 3..7 {
        assert_eq!(marks(&page, row), Vec::<usize>::new());
    }
}

#[test]
fn twelve_hour_page_starts_at_column_one() {
    let page = compose(&afternoon(), &config(false, false), &fonts(), 90, 7).unwrap();
    // " 2:05" from column 1: the space has no dot
    assert_eq!(marks(&page, 0), vec![8, 15, 18, 25]);
    // "PM" from column 32
    assert_eq!(marks(&page, 1), vec![32, 38]);
    // " FEB 28" from column 44
    assert_eq!(marks(&page, 2), vec![47, 52, 57, 63, 68]);
}

#[test]
fn the_day_of_the_week_stands_where_the_month_stood() {
    let page = compose(&afternoon(), &config(true, true), &fonts(), 90, 7).unwrap();
    assert_eq!(marks(&page, 0), vec![7, 14, 21, 24, 31]);
    assert_eq!(marks(&page, 2), vec![41, 46, 51, 57, 62]);
}

#[test]
fn a_page_that_just_holds_the_strings() {
    // the last dot that is on stands at column 62
    let page = compose(&afternoon(), &config(true, false), &fonts(), 63, 7).unwrap();
    assert_eq!(marks(&page, 2), vec![41, 46, 51, 57, 62]);
}

#[test]
fn a_date_that_does_not_fit_is_refused() {
    let failed = compose(&afternoon(), &config(true, false), &fonts(), 62, 7).unwrap_err();
    // the "8" of " FEB 28" is the seventh character
    assert_eq!(
        failed,
        ComposeError::Layout { part: Part::Date, error: LayoutError { index: 6, fault: LayoutFault::OutOfBounds } }
    );
}

#[test]
fn a_time_that_does_not_fit_is_refused() {
    let failed = compose(&afternoon(), &config(true, false), &fonts(), 24, 7).unwrap_err();
    assert_eq!(
        failed,
        ComposeError::Layout { part: Part::Time, error: LayoutError { index: 3, fault: LayoutFault::OutOfBounds } }
    );
}

#[test]
fn a_marker_that_does_not_fit_is_refused() {
    let failed = compose(&afternoon(), &config(false, false), &fonts(), 38, 7).unwrap_err();
    assert_eq!(
        failed,
        ComposeError::Layout { part: Part::Meridiem, error: LayoutError { index: 1, fault: LayoutFault::OutOfBounds } }
    );
}

#[test]
fn a_page_too_low_is_refused() {
    let failed = compose(&afternoon(), &config(true, false), &fonts(), 90, 2).unwrap_err();
    assert_eq!(
        failed,
        ComposeError::Layout { part: Part::Date, error: LayoutError { index: 1, fault: LayoutFault::OutOfBounds } }
    );
}

#[test]
fn a_page_too_large_to_count_is_refused() {
    assert_eq!(compose(&afternoon(), &config(true, false), &fonts(), usize::MAX, 7), Err(ComposeError::PageTooLarge));
}

#[test]
fn compose_on_sets_every_dot_anew() {
    let mut page = PixelBuffer::new(90, 7).unwrap();
    for row in 0..7 {
        for column in 0..90 {
            page.set(row, column, true).unwrap();
        }
    }
    assert_eq!(compose_on(&mut page, &afternoon(), &config(true, false), &fonts()), Ok(()));
    assert_eq!(page, compose(&afternoon(), &config(true, false), &fonts(), 90, 7).unwrap());
}

#[test]
fn compose_on_leaves_the_strings_before_the_one_that_does_not_fit() {
    let mut page = PixelBuffer::new(40, 7).unwrap();
    page.set(6, 39, true).unwrap();
    let failed = compose_on(&mut page, &afternoon(), &config(false, false), &fonts()).unwrap_err();
    assert_eq!(
        failed,
        ComposeError::Layout { part: Part::Date, error: LayoutError { index: 1, fault: LayoutFault::OutOfBounds } }
    );
    assert_eq!(marks(&page, 0), vec![8, 15, 18, 25]);
    assert_eq!(marks(&page, 1), vec![32, 38]);
    for row in 2..7 {
        assert_eq!(marks(&page, row), Vec::<usize>::new());
    }
}

#[test]
fn lay_out_draws_the_strings_it_is_given() {
    let strings = TimeStrings {
        time_string: "1:2".to_string(),
        meridiem_string: Some("A".to_string()),
        date_string: "X\u{2009}Y".to_string(),
    };
    let mut page = PixelBuffer::new(90, 7).unwrap();
    assert_eq!(lay_out(&strings, &config(false, true), &fonts(), &mut page), Ok(()));
    assert_eq!(marks(&page, 0), vec![1, 8, 11]);
    assert_eq!(marks(&page, 1), vec![18]);
    assert_eq!(marks(&page, 2), vec![24, 30]);
}

#[test]
fn lay_out_without_a_marker_puts_the_date_after_the_time() {
    let strings =
        TimeStrings { time_string: "1:2".to_string(), meridiem_string: None, date_string: "XY".to_string() };
    let mut page = PixelBuffer::new(90, 7).unwrap();
    assert_eq!(lay_out(&strings, &config(true, true), &fonts(), &mut page), Ok(()));
    assert_eq!(marks(&page, 0), vec![7, 14, 17]);
    assert_eq!(marks(&page, 1), Vec::<usize>::new());
    assert_eq!(marks(&page, 2), vec![24, 29]);
}

#[test]
fn lay_out_draws_over_what_the_page_shows() {
    let strings =
        TimeStrings { time_string: String::new(), meridiem_string: None, date_string: String::new() };
    let mut page = PixelBuffer::new(9, 7).unwrap();
    page.set(3, 3, true).unwrap();
    let before = page.clone();
    assert_eq!(lay_out(&strings, &config(true, true), &fonts(), &mut page), Ok(()));
    assert_eq!(page, before);
}

#[test]
fn a_clock_draws_the_reading_on_its_page() {
    let mut clock = Clock::new(PixelBuffer::new(90, 7).unwrap(), fonts(), false, false);
    assert_eq!(clock.render_config(), config(false, false));
    assert_eq!(clock.display(), &PixelBuffer::new(90, 7).unwrap());
    assert_eq!(clock.display_time(&afternoon()), Ok(()));
    assert_eq!(clock.display(), &compose(&afternoon(), &config(false, false), &fonts(), 90, 7).unwrap());
}

#[test]
fn a_clock_keeps_nothing_of_the_minute_before() {
    let mut clock = Clock::new(PixelBuffer::new(90, 7).unwrap(), fonts(), true, false);
    // 2021-07-04 00:00:00: "00:00" and " JUL 04"
    let midnight = Timestamp::new(1_625_356_800, 0).unwrap();
    clock.display_time(&afternoon()).unwrap();
    clock.display_time(&midnight).unwrap();
    assert_eq!(clock.display(), &compose(&midnight, &config(true, false), &fonts(), 90, 7).unwrap());
}

#[test]
fn a_clock_with_a_page_too_narrow_fails() {
    let mut clock = Clock::new(PixelBuffer::new(30, 7).unwrap(), fonts(), true, false);
    assert_eq!(
        clock.display_time(&afternoon()),
        Err(ComposeError::Layout { part: Part::Time, error: LayoutError { index: 4, fault: LayoutFault::OutOfBounds } })
    );
    assert_eq!(clock.display(), &{
        let mut page = PixelBuffer::new(30, 7).unwrap();
        page.clear();
        page
    });
}
