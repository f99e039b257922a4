//! The clock: a page, the fonts to draw on it, and how to write the time.

use crate::compose::{
    all_fit, compose_on, first_failure, shows, shows_before, ComposeError, Fonts,
};
use crate::format::{time_text, RenderConfig};
use crate::page::PixelBuffer;
use crate::timestamp::Timestamp;
use vstd::prelude::*;

verus! {

/// A clock that draws the time on its page.
#[derive(Debug)]
pub struct Clock {
    display: PixelBuffer,
    fonts: Fonts,
    use_24_hour: bool,
    show_day_of_week: bool,
}

impl Clock {
    /// Whether the page and the fonts are well formed. Every clock that this
    /// crate hands out is so.
    pub closed spec fn wf(self) -> bool {
        self.display.wf() && self.fonts.wf()
    }

    /// The page as it stands.
    pub closed spec fn page(self) -> PixelBuffer {
        self.display
    }

    /// The fonts that the clock draws with.
    pub closed spec fn fonts(self) -> Fonts {
        self.fonts
    }

    /// How the clock writes the time.
    pub closed spec fn config(self) -> RenderConfig {
        RenderConfig { use_24_hour: self.use_24_hour, show_day_of_week: self.show_day_of_week }
    }

    /// Makes a clock that draws on `display` with `fonts`.
    pub fn new(display: PixelBuffer, fonts: Fonts, use_24_hour: bool, show_day_of_week: bool) -> (clock:
        Clock)
        requires
            display.wf(),
            fonts.wf(),
        ensures
            clock.wf(),
            clock.page() == display,
            clock.fonts() == fonts,
            clock.config() == (RenderConfig { use_24_hour, show_day_of_week }),
    {
        Clock { display, fonts, use_24_hour, show_day_of_week }
    }

    /// How the clock writes the time.
    pub fn render_config(&self) -> (config: RenderConfig)
        ensures
            config == self.config(),
    {
        RenderConfig { use_24_hour: self.use_24_hour, show_day_of_week: self.show_day_of_week }
    }

    /// The page as it stands, to be sent to the sign.
    pub fn display(&self) -> (page: &PixelBuffer)
        ensures
            *page == self.page(),
            self.wf() ==> page.wf(),
    {
        &self.display
    }

    /// Draws the reading `now` on the page. Every dot of the page is set
    /// anew: none keeps what it showed before.
    ///
    /// When a string does not fit on the page, the page shows the strings
    /// before it and nothing else, and the error names the string and the
    /// character that stands in the way.
    pub fn display_time(&mut self, now: &Timestamp) -> (result: Result<(), ComposeError>)
        requires
            old(self).wf(),
        ensures
            final(self).wf(),
            final(self).fonts() == old(self).fonts(),
            final(self).config() == old(self).config(),
            final(self).page().same_size(old(self).page()),
            result is Ok <==> all_fit(
                time_text(now.seconds(), old(self).config()),
                old(self).fonts(),
                old(self).config(),
                old(self).page().spec_width() as int,
                old(self).page().spec_height() as int,
            ),
            result is Ok ==> shows(
                final(self).page(),
                time_text(now.seconds(), old(self).config()),
                old(self).fonts(),
                old(self).config(),
            ),
            result matches Err(failed) ==> {
                &&& failed matches ComposeError::Layout { part, error }
                &&& first_failure(
                    time_text(now.seconds(), old(self).config()),
                    old(self).fonts(),
                    old(self).config(),
                    old(self).page().spec_width() as int,
                    old(self).page().spec_height() as int,
                    part,
                    error,
                )
                &&& shows_before(
                    final(self).page(),
                    time_text(now.seconds(), old(self).config()),
                    old(self).fonts(),
                    old(self).config(),
                    part,
                )
            },
    {
        let config = self.render_config();
        compose_on(&mut self.display, now, &config, &self.fonts)
    }
}

} // verus!
