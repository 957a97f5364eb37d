use vstd::prelude::*;

verus! {

/// The client's settings that the status table reads.
pub struct ClientSettings {
    /// The largest number of lines a table row may take.
    pub max_status_lines: Option<usize>,
    /// Show commands with their aliases expanded.
    pub show_expanded_aliases: bool,
    /// `chrono` format for times of the current day.
    pub status_time_format: String,
    /// `chrono` format for times of other days.
    pub status_datetime_format: String,
}

/// The settings that the status table reads.
pub struct Settings {
    pub client: ClientSettings,
}

/// Whether the output is styled (coloured).
pub struct OutputStyle {
    pub enabled: bool,
}

} // verus!
