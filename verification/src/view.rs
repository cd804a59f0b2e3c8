//! Declarative views: the content of a frame and the terminal state it asks
//! for (alternate screen, cursor, colors, mouse mode, title, progress bar).
use vstd::prelude::*;
use vstd::view::View as _;

use crate::color::Color;
use crate::cursor::Cursor;
use crate::keyboard::KeyboardEnhancements;

verus! {

/// MouseMode selects which mouse events a view receives.
#[derive(Debug, Clone, Copy, PartialEq, Eq, Structural)]
pub enum MouseMode {
    /// No mouse events.
    MouseModeNone,
    /// Mouse events while a button is held (cell motion).
    MouseModeCellMotion,
    /// All mouse motion.
    MouseModeAllMotion,
}

/// ProgressBarState represents the state of the terminal progress bar.
#[derive(Debug, Clone, Copy, PartialEq, Eq, Structural)]
pub enum ProgressBarState {
    /// No progress bar.
    ProgressBarNone,
    /// Default state.
    ProgressBarDefault,
    /// Error state.
    ProgressBarError,
    /// Indeterminate state.
    ProgressBarIndeterminate,
    /// Warning state.
    ProgressBarWarning,
}

/// The name of a progress bar state.
pub open spec fn state_name(s: ProgressBarState) -> Seq<char> {
    match s {
        ProgressBarState::ProgressBarNone => "None"@,
        ProgressBarState::ProgressBarDefault => "Default"@,
        ProgressBarState::ProgressBarError => "Error"@,
        ProgressBarState::ProgressBarIndeterminate => "Indeterminate"@,
        ProgressBarState::ProgressBarWarning => "Warning"@,
    }
}

impl ProgressBarState {
    /// Returns the name of the state.
    pub fn to_string(&self) -> (s: &'static str)
        ensures
            s@ == state_name(*self),
    {
        match self {
            ProgressBarState::ProgressBarNone => "None",
            ProgressBarState::ProgressBarDefault => "Default",
            ProgressBarState::ProgressBarError => "Error",
            ProgressBarState::ProgressBarIndeterminate => "Indeterminate",
            ProgressBarState::ProgressBarWarning => "Warning",
        }
    }
}

/// ProgressBar represents the terminal progress bar.
#[derive(Debug, Clone, Copy, PartialEq, Eq, Structural)]
pub struct ProgressBar {
    /// State of the bar.
    pub state: ProgressBarState,
    /// Value of the bar, between 0 and 100.
    pub value: usize,
}

/// NewProgressBar returns a progress bar with the given state and the value
/// capped at 100.
pub fn new_progress_bar(state: ProgressBarState, value: usize) -> (p: ProgressBar)
    ensures
        p.state == state,
        p.value == (if value > 100 {
            100
        } else {
            value
        }),
        p.value <= 100,
{
    ProgressBar { state, value: if value > 100 { 100 } else { value } }
}

/// View is a declarative terminal frame.
#[derive(Debug, Clone)]
pub struct View {
    /// Frame content.
    pub content: String,
    /// Text cursor, shown when present.
    pub cursor: Option<Cursor>,
    /// Terminal background color.
    pub background_color: Option<Color>,
    /// Terminal foreground color.
    pub foreground_color: Option<Color>,
    /// Window title.
    pub window_title: String,
    /// Whether the view uses the alternate screen.
    pub alt_screen: bool,
    /// Whether focus events are reported.
    pub report_focus: bool,
    /// Whether bracketed paste is disabled.
    pub disable_bracketed_paste_mode: bool,
    /// Mouse tracking mode.
    pub mouse_mode: MouseMode,
    /// Requested keyboard enhancements.
    pub keyboard_enhancements: KeyboardEnhancements,
    /// Terminal progress bar.
    pub progress_bar: Option<ProgressBar>,
}

/// Whether two views render the same: same content, terminal modes, title,
/// colors, keyboard enhancements, cursor and progress bar.
pub open spec fn same_view(a: View, b: View) -> bool {
    &&& a.content@ == b.content@
    &&& a.alt_screen == b.alt_screen
    &&& a.report_focus == b.report_focus
    &&& a.disable_bracketed_paste_mode == b.disable_bracketed_paste_mode
    &&& a.window_title@ == b.window_title@
    &&& a.mouse_mode == b.mouse_mode
    &&& a.background_color == b.background_color
    &&& a.foreground_color == b.foreground_color
    &&& a.keyboard_enhancements == b.keyboard_enhancements
    &&& a.cursor == b.cursor
    &&& a.progress_bar == b.progress_bar
}

/// The view with the given content and every setting at its default: no
/// cursor, colors, title or progress bar, main screen, no focus reports,
/// bracketed paste on, no mouse events and no keyboard enhancements.
pub open spec fn default_view_with(v: View, content: Seq<char>) -> bool {
    &&& v.content@ == content
    &&& v.cursor is None
    &&& v.background_color is None
    &&& v.foreground_color is None
    &&& v.window_title@ == Seq::<char>::empty()
    &&& !v.alt_screen
    &&& !v.report_focus
    &&& !v.disable_bracketed_paste_mode
    &&& v.mouse_mode == MouseMode::MouseModeNone
    &&& v.keyboard_enhancements == KeyboardEnhancements {
        report_event_types: false,
        report_alternate_keys: false,
        report_all_keys_as_escape_codes: false,
        report_associated_text: false,
    }
    &&& v.progress_bar is None
}

/// Whether two optional colors are equal.
pub fn same_color(a: &Option<Color>, b: &Option<Color>) -> (r: bool)
    ensures
        r == (*a == *b),
{
    match (a, b) {
        (None, None) => true,
        (Some(x), Some(y)) => x.r == y.r && x.g == y.g && x.b == y.b,
        _ => false,
    }
}

/// Whether two optional cursors are equal.
pub fn same_cursor(a: &Option<Cursor>, b: &Option<Cursor>) -> (r: bool)
    ensures
        r == (*a == *b),
{
    match (a, b) {
        (None, None) => true,
        (Some(x), Some(y)) => x.position.x == y.position.x && x.position.y == y.position.y
            && x.shape == y.shape && x.blink == y.blink && same_color(&x.color, &y.color),
        _ => false,
    }
}

/// Whether two optional progress bars are equal.
pub fn same_progress_bar(a: &Option<ProgressBar>, b: &Option<ProgressBar>) -> (r: bool)
    ensures
        r == (*a == *b),
{
    match (a, b) {
        (None, None) => true,
        (Some(x), Some(y)) => x.state == y.state && x.value == y.value,
        _ => false,
    }
}

impl View {
    /// Returns a view with the given content and default settings.
    pub fn new(content: &str) -> (v: View)
        ensures
            default_view_with(v, content@),
    {
        let mut v = View::default();
        v.set_content(content);
        v
    }

    /// Sets the view content.
    pub fn set_content(&mut self, s: &str)
        ensures
            final(self).content@ == s@,
            final(self).cursor == old(self).cursor,
            final(self).background_color == old(self).background_color,
            final(self).foreground_color == old(self).foreground_color,
            final(self).window_title == old(self).window_title,
            final(self).alt_screen == old(self).alt_screen,
            final(self).report_focus == old(self).report_focus,
            final(self).disable_bracketed_paste_mode == old(self).disable_bracketed_paste_mode,
            final(self).mouse_mode == old(self).mouse_mode,
            final(self).keyboard_enhancements == old(self).keyboard_enhancements,
            final(self).progress_bar == old(self).progress_bar,
    {
        self.content = s.to_owned();
    }

    /// Returns whether two views render the same; renderers skip frames equal
    /// to the last one.
    pub fn equals(&self, o: &View) -> (r: bool)
        ensures
            r == same_view(*self, *o),
    {
        self.content == o.content && self.alt_screen == o.alt_screen && self.report_focus
            == o.report_focus && self.disable_bracketed_paste_mode
            == o.disable_bracketed_paste_mode && self.window_title == o.window_title
            && self.mouse_mode == o.mouse_mode && same_color(
            &self.background_color,
            &o.background_color,
        ) && same_color(&self.foreground_color, &o.foreground_color)
            && self.keyboard_enhancements == o.keyboard_enhancements && same_cursor(
            &self.cursor,
            &o.cursor,
        ) && same_progress_bar(&self.progress_bar, &o.progress_bar)
    }
}

impl PartialEq for View {
    fn eq(&self, other: &View) -> (r: bool) {
        self.equals(other)
    }
}

impl vstd::std_specs::cmp::PartialEqSpecImpl for View {
    open spec fn obeys_eq_spec() -> bool {
        true
    }

    open spec fn eq_spec(&self, other: &View) -> bool {
        same_view(*self, *other)
    }
}

impl Default for View {
    /// The empty view with default settings.
    fn default() -> (v: View)
        ensures
            default_view_with(v, Seq::empty()),
    {
        View {
            content: String::new(),
            cursor: None,
            background_color: None,
            foreground_color: None,
            window_title: String::new(),
            alt_screen: false,
            report_focus: false,
            disable_bracketed_paste_mode: false,
            mouse_mode: MouseMode::MouseModeNone,
            keyboard_enhancements: KeyboardEnhancements {
                report_event_types: false,
                report_alternate_keys: false,
                report_all_keys_as_escape_codes: false,
                report_associated_text: false,
            },
            progress_bar: None,
        }
    }
}

/// Rendering equality is reflexive and symmetric.
pub proof fn law_same_view_equivalence(a: View, b: View)
    ensures
        same_view(a, a),
        same_view(a, b) == same_view(b, a),
{
}

} // verus!
