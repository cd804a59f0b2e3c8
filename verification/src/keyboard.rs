//! Keyboard enhancement (kitty keyboard protocol) settings and reports.
use vstd::prelude::*;

verus! {

/// Flag of the report of press, release and repeat event types.
pub const KITTY_REPORT_EVENT_TYPES: i32 = 1;

/// Flag of the report of alternate keys.
pub const KITTY_REPORT_ALTERNATE_KEYS: i32 = 2;

/// Flag of the report of all keys as escape codes.
pub const KITTY_REPORT_ALL_KEYS_AS_ESCAPE_CODES: i32 = 4;

/// Flag of the report of associated text.
pub const KITTY_REPORT_ASSOCIATED_KEYS: i32 = 8;

/// The keyboard enhancements a view requests.
#[derive(Debug, Clone, Copy, PartialEq, Eq, Structural)]
pub struct KeyboardEnhancements {
    /// Report press, release and repeat events.
    pub report_event_types: bool,
    /// Report alternate keys.
    pub report_alternate_keys: bool,
    /// Report all keys as escape codes.
    pub report_all_keys_as_escape_codes: bool,
    /// Report associated text.
    pub report_associated_text: bool,
}

/// KeyboardEnhancementsMsg reports the keyboard enhancements the terminal
/// supports.
#[derive(Debug, Clone, Copy, PartialEq, Eq)]
pub struct KeyboardEnhancementsMsg {
    /// Bit mask of the supported enhancements.
    pub flags: i32,
}

impl KeyboardEnhancementsMsg {
    /// Returns whether the terminal supports key disambiguation: some flag is
    /// reported and the mask is positive.
    pub fn supports_key_disambiguation(&self) -> (b: bool)
        ensures
            b == (self.flags > 0),
    {
        self.flags > 0
    }

    /// Returns whether the terminal reports press, release and repeat events.
    pub fn supports_event_types(&self) -> (b: bool)
        ensures
            b == (self.flags & KITTY_REPORT_EVENT_TYPES != 0),
    {
        (self.flags & KITTY_REPORT_EVENT_TYPES) != 0
    }

    /// Returns whether the terminal reports alternate keys.
    pub fn supports_alternate_keys(&self) -> (b: bool)
        ensures
            b == (self.flags & KITTY_REPORT_ALTERNATE_KEYS != 0),
    {
        (self.flags & KITTY_REPORT_ALTERNATE_KEYS) != 0
    }

    /// Returns whether the terminal reports all keys as escape codes.
    pub fn supports_all_keys_as_escape_codes(&self) -> (b: bool)
        ensures
            b == (self.flags & KITTY_REPORT_ALL_KEYS_AS_ESCAPE_CODES != 0),
    {
        (self.flags & KITTY_REPORT_ALL_KEYS_AS_ESCAPE_CODES) != 0
    }

    /// Returns whether the terminal reports associated text.
    pub fn supports_associated_text(&self) -> (b: bool)
        ensures
            b == (self.flags & KITTY_REPORT_ASSOCIATED_KEYS != 0),
    {
        (self.flags & KITTY_REPORT_ASSOCIATED_KEYS) != 0
    }
}

} // verus!
