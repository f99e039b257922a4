//! What a run of the clock is started with.

use crate::format::RenderConfig;
use vstd::prelude::*;

verus! {

/// The settings of a run, as they stand once the command line has been read.
#[derive(Clone, Debug, PartialEq, Eq)]
pub struct Options {
    /// The serial port of the sign, or "virtual" for a sign that only
    /// exists in the log.
    pub port: String,
    /// The address of the sign on its bus.
    pub address: u16,
    /// Write the hour from 00 to 23 (14:30, not 2:30 PM).
    pub use_24_hour: bool,
    /// Write the day of the week after the time (WED 28), not the month
    /// (FEB 28).
    pub show_day_of_week: bool,
    /// Draw the time once and leave.
    pub one_shot: bool,
}

impl Options {
    /// How the time is to be written.
    pub fn render_config(&self) -> (config: RenderConfig)
        ensures
            config == (RenderConfig {
                use_24_hour: self.use_24_hour,
                show_day_of_week: self.show_day_of_week,
            }),
    {
        RenderConfig { use_24_hour: self.use_24_hour, show_day_of_week: self.show_day_of_week }
    }
}

} // verus!
