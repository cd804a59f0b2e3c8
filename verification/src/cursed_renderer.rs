//! The decisions of the cell-based renderer: which terminal modes to set or
//! reset when a frame differs from the last one, how a frame is wrapped in
//! cursor and synchronized-output sequences, what starting and closing the
//! renderer write, and how lines are inserted above the frame. The screen
//! diffing engine that executes these operations lives outside the library.
use vstd::prelude::*;

use crate::color::Color;
use crate::cursor::CursorShape;
use crate::keyboard::KeyboardEnhancements;
use crate::view::{same_color, same_cursor, same_progress_bar, same_view, MouseMode, ProgressBar, ProgressBarState, View};
use vstd::view::View as _;

verus! {

/// Kitty keyboard flag: disambiguate escape codes (always requested).
pub const KITTY_DISAMBIGUATE_ESCAPE_CODES: i32 = 1;

/// Kitty keyboard flag: report event types.
pub const KITTY_FLAG_REPORT_EVENT_TYPES: i32 = 2;

/// Kitty keyboard flag: report alternate keys.
pub const KITTY_FLAG_REPORT_ALTERNATE_KEYS: i32 = 4;

/// Kitty keyboard flag: report all keys as escape codes.
pub const KITTY_FLAG_REPORT_ALL_KEYS_AS_ESCAPE_CODES: i32 = 8;

/// Kitty keyboard flag: report associated text.
pub const KITTY_FLAG_REPORT_ASSOCIATED_TEXT: i32 = 16;

/// A terminal operation decided by the renderer.
#[derive(Debug, Clone, PartialEq, Eq)]
pub enum TermOp {
    /// Switch the screen model to or from the alternate screen; with
    /// `write`, also write the alternate-screen mode sequence.
    AltScreen { enable: bool, write: bool },
    /// Write the mode that switches to the alternate screen and saves the
    /// cursor.
    SetAltScreenMode,
    /// Write the mode that leaves the alternate screen and restores the
    /// cursor.
    ResetAltScreenMode,
    /// Show (`true`) or hide (`false`) the text cursor.
    TextCursor(bool),
    /// Enable bracketed paste.
    SetBracketedPaste,
    /// Disable bracketed paste.
    ResetBracketedPaste,
    /// Enable focus reports.
    SetFocusEvents,
    /// Disable focus reports.
    ResetFocusEvents,
    /// Enable button-event mouse tracking.
    SetMouseButtonEvents,
    /// Disable button-event mouse tracking.
    ResetMouseButtonEvents,
    /// Enable any-event mouse tracking.
    SetMouseAnyEvents,
    /// Disable any-event mouse tracking.
    ResetMouseAnyEvents,
    /// Enable SGR extended mouse coordinates.
    SetMouseExtSgr,
    /// Disable SGR extended mouse coordinates.
    ResetMouseExtSgr,
    /// Set the window title.
    SetWindowTitle(String),
    /// Set the window title to the empty title.
    ClearWindowTitle,
    /// Enable the modifyOtherKeys level 2 keyboard mode.
    EnableModifyOtherKeys,
    /// Reset the modifyOtherKeys keyboard mode.
    ResetModifyOtherKeys,
    /// Set the kitty keyboard flags.
    KittyKeyboard(i32),
    /// Ask the terminal for its kitty keyboard flags.
    RequestKittyKeyboard,
    /// Set the cursor color.
    SetCursorColor(Color),
    /// Reset the cursor color.
    ResetCursorColor,
    /// Set the default foreground color.
    SetForegroundColor(Color),
    /// Reset the default foreground color.
    ResetForegroundColor,
    /// Set the default background color.
    SetBackgroundColor(Color),
    /// Reset the default background color.
    ResetBackgroundColor,
    /// Set the cursor style (DECSCUSR value).
    SetCursorStyle(i32),
    /// Remove the progress bar.
    ResetProgressBar,
    /// Show the progress bar in its default state with a value.
    SetProgressBar(usize),
    /// Show the progress bar in its error state with a value.
    SetErrorProgressBar(usize),
    /// Show the indeterminate progress bar.
    SetIndeterminateProgressBar,
    /// Show the progress bar in its warning state with a value.
    SetWarningProgressBar(usize),
    /// Move the cursor to the start of the last row and flush the screen
    /// model.
    MoveToBottom,
    /// Erase the screen below the cursor.
    EraseScreenBelow,
    /// Turn off the Unicode core (grapheme width) mode.
    ResetUnicodeCore,
    /// Start synchronized output.
    BeginSynchronizedOutput,
    /// End synchronized output.
    EndSynchronizedOutput,
}

/// The kitty keyboard flags requested for the given enhancements: basic
/// disambiguation always, plus one flag per requested enhancement.
pub open spec fn kitty_flags(ke: KeyboardEnhancements) -> i32 {
    (1 + (if ke.report_event_types {
        2int
    } else {
        0
    }) + (if ke.report_alternate_keys {
        4int
    } else {
        0
    }) + (if ke.report_all_keys_as_escape_codes {
        8int
    } else {
        0
    }) + (if ke.report_associated_text {
        16int
    } else {
        0
    })) as i32
}

/// Returns the kitty keyboard flags requested for the given enhancements.
pub fn keyboard_enhancements_flags(ke: &KeyboardEnhancements) -> (flags: i32)
    ensures
        flags == kitty_flags(*ke),
        1 <= flags <= 31,
{
    let mut flags: i32 = KITTY_DISAMBIGUATE_ESCAPE_CODES;
    if ke.report_event_types {
        flags = flags + KITTY_FLAG_REPORT_EVENT_TYPES;
    }
    if ke.report_alternate_keys {
        flags = flags + KITTY_FLAG_REPORT_ALTERNATE_KEYS;
    }
    if ke.report_all_keys_as_escape_codes {
        flags = flags + KITTY_FLAG_REPORT_ALL_KEYS_AS_ESCAPE_CODES;
    }
    if ke.report_associated_text {
        flags = flags + KITTY_FLAG_REPORT_ASSOCIATED_TEXT;
    }
    flags
}

/// The DECSCUSR value of a cursor shape: blinking block 1, steady block 2,
/// blinking underline 3, steady underline 4, blinking bar 5, steady bar 6.
pub open spec fn cursor_style(shape: CursorShape, blink: bool) -> i32 {
    let base: int = match shape {
        CursorShape::CursorBlock => 0,
        CursorShape::CursorUnderline => 1,
        CursorShape::CursorBar => 2,
    };
    (base * 2 + 1 + (if blink {
        0int
    } else {
        1
    })) as i32
}

/// Encodes a cursor shape and blinking into the cursor style value.
pub fn encode_cursor_style(style: CursorShape, blink: bool) -> (s: i32)
    ensures
        s == cursor_style(style, blink),
        1 <= s <= 6,
{
    let base: i32 = match style {
        CursorShape::CursorBlock => 0,
        CursorShape::CursorUnderline => 1,
        CursorShape::CursorBar => 2,
    };
    let mut s = base * 2 + 1;
    if !blink {
        s = s + 1;
    }
    s
}

/// Returns whether two views render the same.
pub fn view_equals(a: &View, b: &View) -> (r: bool)
    ensures
        r == same_view(*a, *b),
{
    a.equals(b)
}

/// The operation that shows a progress bar, or removes it when there is
/// none or its state is `ProgressBarNone`.
pub open spec fn progress_op(pb: Option<ProgressBar>) -> TermOp {
    match pb {
        None => TermOp::ResetProgressBar,
        Some(p) => match p.state {
            ProgressBarState::ProgressBarNone => TermOp::ResetProgressBar,
            ProgressBarState::ProgressBarDefault => TermOp::SetProgressBar(p.value),
            ProgressBarState::ProgressBarError => TermOp::SetErrorProgressBar(p.value),
            ProgressBarState::ProgressBarIndeterminate => TermOp::SetIndeterminateProgressBar,
            ProgressBarState::ProgressBarWarning => TermOp::SetWarningProgressBar(p.value),
        },
    }
}

/// Returns the operation that shows the given progress bar.
pub fn progress_bar_op(pb: Option<ProgressBar>) -> (op: TermOp)
    ensures
        op == progress_op(pb),
{
    match pb {
        None => TermOp::ResetProgressBar,
        Some(p) => match p.state {
            ProgressBarState::ProgressBarNone => TermOp::ResetProgressBar,
            ProgressBarState::ProgressBarDefault => TermOp::SetProgressBar(p.value),
            ProgressBarState::ProgressBarError => TermOp::SetErrorProgressBar(p.value),
            ProgressBarState::ProgressBarIndeterminate => TermOp::SetIndeterminateProgressBar,
            ProgressBarState::ProgressBarWarning => TermOp::SetWarningProgressBar(p.value),
        },
    }
}

/// Whether the frame switches between the main and the alternate screen:
/// the first frame when it uses the alternate screen, later frames when
/// the choice changed.
pub open spec fn alt_changed(last: Option<View>, v: View) -> bool {
    match last {
        None => v.alt_screen,
        Some(l) => l.alt_screen != v.alt_screen,
    }
}

/// Returns whether the frame switches between the main and the alternate
/// screen.
pub fn frame_switches_screen(last: &Option<View>, v: &View) -> (r: bool)
    ensures
        r == alt_changed(*last, *v),
{
    match last {
        None => v.alt_screen,
        Some(l) => l.alt_screen != v.alt_screen,
    }
}

/// The screen switch of a frame.
pub open spec fn alt_ops(last: Option<View>, v: View) -> Seq<TermOp> {
    if alt_changed(last, v) {
        seq![TermOp::AltScreen { enable: v.alt_screen, write: false }]
    } else {
        Seq::empty()
    }
}

/// The bracketed-paste change of a frame: enabled on the first frame unless
/// disabled, and toggled when the setting changed.
pub open spec fn paste_ops(last: Option<View>, v: View) -> Seq<TermOp> {
    match last {
        None => if !v.disable_bracketed_paste_mode {
            seq![TermOp::SetBracketedPaste]
        } else {
            Seq::empty()
        },
        Some(l) => if l.disable_bracketed_paste_mode != v.disable_bracketed_paste_mode {
            if !v.disable_bracketed_paste_mode {
                seq![TermOp::SetBracketedPaste]
            } else {
                seq![TermOp::ResetBracketedPaste]
            }
        } else {
            Seq::empty()
        },
    }
}

/// The focus-report change of a frame: enabled on the first frame when
/// requested, and toggled when the setting changed.
pub open spec fn focus_ops(last: Option<View>, v: View) -> Seq<TermOp> {
    match last {
        None => if v.report_focus {
            seq![TermOp::SetFocusEvents]
        } else {
            Seq::empty()
        },
        Some(l) => if l.report_focus != v.report_focus {
            if v.report_focus {
                seq![TermOp::SetFocusEvents]
            } else {
                seq![TermOp::ResetFocusEvents]
            }
        } else {
            Seq::empty()
        },
    }
}

/// The mouse-mode change of a frame: the tracking of the new mode is set,
/// after resetting the tracking of the other motion mode; turning mouse
/// events off resets all tracking.
pub open spec fn mouse_ops(last: Option<View>, v: View) -> Seq<TermOp> {
    if last matches Some(l) && l.mouse_mode == v.mouse_mode {
        Seq::empty()
    } else {
        match v.mouse_mode {
            MouseMode::MouseModeNone => if last is Some {
                seq![
                    TermOp::ResetMouseButtonEvents,
                    TermOp::ResetMouseAnyEvents,
                    TermOp::ResetMouseExtSgr,
                ]
            } else {
                Seq::empty()
            },
            MouseMode::MouseModeCellMotion => (if last matches Some(l) && l.mouse_mode
                == MouseMode::MouseModeAllMotion {
                seq![TermOp::ResetMouseAnyEvents]
            } else {
                Seq::empty()
            }) + seq![TermOp::SetMouseButtonEvents, TermOp::SetMouseExtSgr],
            MouseMode::MouseModeAllMotion => (if last matches Some(l) && l.mouse_mode
                == MouseMode::MouseModeCellMotion {
                seq![TermOp::ResetMouseButtonEvents]
            } else {
                Seq::empty()
            }) + seq![TermOp::SetMouseAnyEvents, TermOp::SetMouseExtSgr],
        }
    }
}

/// The window-title change of a frame: a non-empty title on the first
/// frame, and any title change later.
pub open spec fn title_ops(last: Option<View>, v: View) -> Seq<TermOp> {
    let set = match last {
        None => v.window_title@.len() > 0,
        Some(l) => l.window_title@ != v.window_title@,
    };
    if set {
        seq![TermOp::SetWindowTitle(v.window_title)]
    } else {
        Seq::empty()
    }
}

/// The keyboard-protocol change of a frame: on the first frame, and when the
/// enhancements or the screen change, modifyOtherKeys and the kitty flags
/// are set and, unless closing, the flags are queried.
pub open spec fn kitty_ops(last: Option<View>, v: View, closing: bool) -> Seq<TermOp> {
    let changed = match last {
        None => true,
        Some(l) => l.keyboard_enhancements != v.keyboard_enhancements || l.alt_screen
            != v.alt_screen,
    };
    if changed {
        seq![TermOp::EnableModifyOtherKeys, TermOp::KittyKeyboard(kitty_flags(v.keyboard_enhancements))]
            + (if !closing {
            seq![TermOp::RequestKittyKeyboard]
        } else {
            Seq::empty()
        })
    } else {
        Seq::empty()
    }
}

/// The color of an optional cursor.
pub open spec fn cursor_color(c: Option<crate::cursor::Cursor>) -> Option<Color> {
    match c {
        Some(cur) => cur.color,
        None => None,
    }
}

/// The cursor of an optional frame.
pub open spec fn frame_cursor(v: Option<View>) -> Option<crate::cursor::Cursor> {
    match v {
        Some(f) => f.cursor,
        None => None,
    }
}

/// The change of one terminal color: set when a new color is given, reset
/// when it was removed, nothing when unchanged.
pub open spec fn color_ops(new: Option<Color>, old: Option<Color>, kind: int) -> Seq<TermOp> {
    if new == old {
        Seq::empty()
    } else {
        match new {
            None => seq![
                if kind == 0 {
                    TermOp::ResetCursorColor
                } else if kind == 1 {
                    TermOp::ResetForegroundColor
                } else {
                    TermOp::ResetBackgroundColor
                },
            ],
            Some(c) => seq![
                if kind == 0 {
                    TermOp::SetCursorColor(c)
                } else if kind == 1 {
                    TermOp::SetForegroundColor(c)
                } else {
                    TermOp::SetBackgroundColor(c)
                },
            ],
        }
    }
}

/// The cursor, foreground and background color changes of a frame, in that
/// order.
pub open spec fn colors_ops(last: Option<View>, v: View) -> Seq<TermOp> {
    let (lfg, lbg) = match last {
        Some(l) => (l.foreground_color, l.background_color),
        None => (None, None),
    };
    color_ops(cursor_color(v.cursor), cursor_color(frame_cursor(last)), 0) + color_ops(
        v.foreground_color,
        lfg,
        1,
    ) + color_ops(v.background_color, lbg, 2)
}

/// The cursor style of an optional cursor.
pub open spec fn style_of(c: Option<crate::cursor::Cursor>) -> Option<i32> {
    match c {
        Some(cur) => Some(cursor_style(cur.shape, cur.blink)),
        None => None,
    }
}

/// The cursor-style change of a frame: the new style, or the default style
/// when the cursor went away.
pub open spec fn cursor_style_ops(last: Option<View>, v: View) -> Seq<TermOp> {
    let cs = style_of(v.cursor);
    let ls = style_of(frame_cursor(last));
    if cs != ls {
        seq![
            TermOp::SetCursorStyle(
                match cs {
                    Some(x) => x,
                    None => 0,
                },
            ),
        ]
    } else {
        Seq::empty()
    }
}

/// The progress bar of an optional frame.
pub open spec fn frame_progress(v: Option<View>) -> Option<ProgressBar> {
    match v {
        Some(f) => f.progress_bar,
        None => None,
    }
}

/// Whether the progress bar changed: a visible bar on the first frame, a
/// bar that appeared or went away, or a bar whose state or value changed.
pub open spec fn progress_changed(last: Option<View>, v: View) -> bool {
    ||| last is None && (v.progress_bar matches Some(p) && p.state
        != ProgressBarState::ProgressBarNone)
    ||| last is Some && (frame_progress(last) is None) != (v.progress_bar is None)
    ||| frame_progress(last) is Some && v.progress_bar is Some && frame_progress(last)
        != v.progress_bar
}

/// The progress-bar change of a frame.
pub open spec fn progress_ops(last: Option<View>, v: View) -> Seq<TermOp> {
    if progress_changed(last, v) {
        seq![progress_op(v.progress_bar)]
    } else {
        Seq::empty()
    }
}

/// The terminal-state changes of a frame relative to the last frame, in the
/// order they are made: screen, bracketed paste, focus reports, mouse
/// tracking, window title, keyboard protocol, colors, cursor style and
/// progress bar.
pub open spec fn mode_changes_spec(last: Option<View>, v: View, closing: bool) -> Seq<TermOp> {
    alt_ops(last, v) + paste_ops(last, v) + focus_ops(last, v) + mouse_ops(last, v) + title_ops(
        last,
        v,
    ) + kitty_ops(last, v, closing) + colors_ops(last, v) + cursor_style_ops(last, v)
        + progress_ops(last, v)
}

fn push_alt_ops(ops: &mut Vec<TermOp>, last: &Option<View>, v: &View)
    ensures
        final(ops)@ == old(ops)@ + alt_ops(*last, *v),
{
    let changed = match last {
        None => v.alt_screen,
        Some(l) => l.alt_screen != v.alt_screen,
    };
    if changed {
        ops.push(TermOp::AltScreen { enable: v.alt_screen, write: false });
    }
    assert(ops@ =~= old(ops)@ + alt_ops(*last, *v));
}

fn push_paste_focus_ops(ops: &mut Vec<TermOp>, last: &Option<View>, v: &View)
    ensures
        final(ops)@ == old(ops)@ + paste_ops(*last, *v) + focus_ops(*last, *v),
{
    match last {
        None => {
            if !v.disable_bracketed_paste_mode {
                ops.push(TermOp::SetBracketedPaste);
            }
            if v.report_focus {
                ops.push(TermOp::SetFocusEvents);
            }
        },
        Some(l) => {
            if l.disable_bracketed_paste_mode != v.disable_bracketed_paste_mode {
                if !v.disable_bracketed_paste_mode {
                    ops.push(TermOp::SetBracketedPaste);
                } else {
                    ops.push(TermOp::ResetBracketedPaste);
                }
            }
            if l.report_focus != v.report_focus {
                if v.report_focus {
                    ops.push(TermOp::SetFocusEvents);
                } else {
                    ops.push(TermOp::ResetFocusEvents);
                }
            }
        },
    }
    assert(ops@ =~= old(ops)@ + paste_ops(*last, *v) + focus_ops(*last, *v));
}

fn push_mouse_ops(ops: &mut Vec<TermOp>, last: &Option<View>, v: &View)
    ensures
        final(ops)@ == old(ops)@ + mouse_ops(*last, *v),
{
    let same = match last {
        Some(l) => l.mouse_mode == v.mouse_mode,
        None => false,
    };
    if !same {
        match v.mouse_mode {
            MouseMode::MouseModeNone => {
                if last.is_some() {
                    ops.push(TermOp::ResetMouseButtonEvents);
                    ops.push(TermOp::ResetMouseAnyEvents);
                    ops.push(TermOp::ResetMouseExtSgr);
                }
            },
            MouseMode::MouseModeCellMotion => {
                if let Some(l) = last {
                    if l.mouse_mode == MouseMode::MouseModeAllMotion {
                        ops.push(TermOp::ResetMouseAnyEvents);
                    }
                }
                ops.push(TermOp::SetMouseButtonEvents);
                ops.push(TermOp::SetMouseExtSgr);
            },
            MouseMode::MouseModeAllMotion => {
                if let Some(l) = last {
                    if l.mouse_mode == MouseMode::MouseModeCellMotion {
                        ops.push(TermOp::ResetMouseButtonEvents);
                    }
                }
                ops.push(TermOp::SetMouseAnyEvents);
                ops.push(TermOp::SetMouseExtSgr);
            },
        }
    }
    assert(ops@ =~= old(ops)@ + mouse_ops(*last, *v));
}

fn push_title_kitty_ops(ops: &mut Vec<TermOp>, last: &Option<View>, v: &View, closing: bool)
    ensures
        final(ops)@ == old(ops)@ + title_ops(*last, *v) + kitty_ops(*last, *v, closing),
{
    let set_title = match last {
        None => !v.window_title.as_str().is_empty(),
        Some(l) => l.window_title != v.window_title,
    };
    if set_title {
        ops.push(TermOp::SetWindowTitle(v.window_title.clone()));
    }
    let ghost mid = ops@;
    let changed = match last {
        None => true,
        Some(l) => l.keyboard_enhancements != v.keyboard_enhancements || l.alt_screen
            != v.alt_screen,
    };
    if changed {
        ops.push(TermOp::EnableModifyOtherKeys);
        let flags = keyboard_enhancements_flags(&v.keyboard_enhancements);
        ops.push(TermOp::KittyKeyboard(flags));
        if !closing {
            ops.push(TermOp::RequestKittyKeyboard);
        }
    }
    assert(mid =~= old(ops)@ + title_ops(*last, *v));
    assert(ops@ =~= mid + kitty_ops(*last, *v, closing));
}

fn push_color_op(ops: &mut Vec<TermOp>, new: Option<Color>, old_color: Option<Color>, kind: u8)
    requires
        kind <= 2,
    ensures
        final(ops)@ == old(ops)@ + color_ops(new, old_color, kind as int),
{
    if !same_color(&new, &old_color) {
        match new {
            None => {
                if kind == 0 {
                    ops.push(TermOp::ResetCursorColor);
                } else if kind == 1 {
                    ops.push(TermOp::ResetForegroundColor);
                } else {
                    ops.push(TermOp::ResetBackgroundColor);
                }
            },
            Some(c) => {
                if kind == 0 {
                    ops.push(TermOp::SetCursorColor(c));
                } else if kind == 1 {
                    ops.push(TermOp::SetForegroundColor(c));
                } else {
                    ops.push(TermOp::SetBackgroundColor(c));
                }
            },
        }
    }
    assert(ops@ =~= old(ops)@ + color_ops(new, old_color, kind as int));
}

fn push_colors_ops(ops: &mut Vec<TermOp>, last: &Option<View>, v: &View)
    ensures
        final(ops)@ == old(ops)@ + colors_ops(*last, *v),
{
    let cc = match &v.cursor {
        Some(c) => c.color,
        None => None,
    };
    let lcc = match last {
        Some(l) => match &l.cursor {
            Some(c) => c.color,
            None => None,
        },
        None => None,
    };
    let (lfg, lbg) = match last {
        Some(l) => (l.foreground_color, l.background_color),
        None => (None, None),
    };
    let ghost start = old(ops)@;
    push_color_op(ops, cc, lcc, 0);
    let ghost a = ops@;
    push_color_op(ops, v.foreground_color, lfg, 1);
    let ghost b = ops@;
    push_color_op(ops, v.background_color, lbg, 2);
    assert(ops@ =~= start + colors_ops(*last, *v));
}

fn push_style_progress_ops(ops: &mut Vec<TermOp>, last: &Option<View>, v: &View)
    ensures
        final(ops)@ == old(ops)@ + cursor_style_ops(*last, *v) + progress_ops(*last, *v),
{
    let cs: Option<i32> = match &v.cursor {
        Some(c) => Some(encode_cursor_style(c.shape, c.blink)),
        None => None,
    };
    let ls: Option<i32> = match last {
        Some(l) => match &l.cursor {
            Some(c) => Some(encode_cursor_style(c.shape, c.blink)),
            None => None,
        },
        None => None,
    };
    let differ = match (cs, ls) {
        (None, None) => false,
        (Some(x), Some(y)) => x != y,
        _ => true,
    };
    if differ {
        ops.push(
            TermOp::SetCursorStyle(
                match cs {
                    Some(x) => x,
                    None => 0,
                },
            ),
        );
    }
    let ghost mid = ops@;
    let last_pb: Option<ProgressBar> = match last {
        Some(l) => l.progress_bar,
        None => None,
    };
    let first_visible = match v.progress_bar {
        Some(p) => p.state != ProgressBarState::ProgressBarNone,
        None => false,
    };
    let changed = (last.is_none() && first_visible) || (last.is_some() && last_pb.is_none()
        != v.progress_bar.is_none()) || (last_pb.is_some() && v.progress_bar.is_some()
        && !same_progress_bar(&last_pb, &v.progress_bar));
    if changed {
        ops.push(progress_bar_op(v.progress_bar));
    }
    assert(mid =~= old(ops)@ + cursor_style_ops(*last, *v));
    assert(ops@ =~= mid + progress_ops(*last, *v));
}

/// Returns the terminal-state changes of a frame relative to the last
/// frame, in the order they are made.
pub fn mode_changes(last: &Option<View>, view: &View, closing: bool) -> (ops: Vec<TermOp>)
    ensures
        ops@ == mode_changes_spec(*last, *view, closing),
{
    let mut ops: Vec<TermOp> = Vec::new();
    push_alt_ops(&mut ops, last, view);
    push_paste_focus_ops(&mut ops, last, view);
    push_mouse_ops(&mut ops, last, view);
    push_title_kitty_ops(&mut ops, last, view, closing);
    push_colors_ops(&mut ops, last, view);
    push_style_progress_ops(&mut ops, last, view);
    assert(ops@ =~= mode_changes_spec(*last, *view, closing));
    ops
}

/// Whether a flush can skip the frame: the renderer is neither starting
/// nor closing, and the frame renders the same as the last one in the same
/// area.
pub open spec fn skips_frame(
    starting: bool,
    closing: bool,
    last: Option<View>,
    v: View,
    same_area: bool,
) -> bool {
    !starting && !closing && (last matches Some(l) && same_view(l, v)) && same_area
}

/// Returns whether a flush can skip the frame.
pub fn should_skip_frame(
    starting: bool,
    closing: bool,
    last: &Option<View>,
    view: &View,
    same_area: bool,
) -> (skip: bool)
    ensures
        skip == skips_frame(starting, closing, *last, *view, same_area),
{
    if starting || closing || !same_area {
        return false;
    }
    match last {
        Some(l) => l.equals(view),
        None => false,
    }
}

/// The height of the area a frame is drawn in: on the main screen the
/// frame's own height; on the alternate screen the terminal height, or
/// nothing for an empty frame.
pub open spec fn frame_height_spec(
    height: nat,
    alt_screen: bool,
    content_empty: bool,
    content_height: nat,
) -> nat {
    if !alt_screen {
        content_height
    } else if content_empty {
        0
    } else {
        height
    }
}

/// Returns the height of the area a frame is drawn in, and how many of its
/// top lines are dropped because they do not fit the terminal.
pub fn frame_rows(height: usize, alt_screen: bool, content_empty: bool, content_height: usize) -> (r: (
    usize,
    usize,
))
    ensures
        r.0 == frame_height_spec(height as nat, alt_screen, content_empty, content_height as nat),
        r.1 == (if r.0 > height {
            r.0 - height
        } else {
            0
        }),
{
    let mut h = height;
    if content_empty {
        h = 0;
    }
    if !alt_screen {
        h = content_height;
    }
    let drop = if h > height {
        h - height
    } else {
        0
    };
    (h, drop)
}

/// Where the cursor goes after a frame is drawn: to the frame's cursor when
/// it has one; on the main screen without one, back to the start of the
/// line when it is left at the last column (or beyond), so that it does not
/// dangle; nowhere otherwise.
pub open spec fn cursor_placement_spec(v: View, x: usize, y: usize, width: usize) -> Option<
    (usize, usize),
> {
    match v.cursor {
        Some(c) => Some((c.position.x, c.position.y)),
        None => if !v.alt_screen && x >= (if width >= 1 {
            width - 1
        } else {
            0
        }) {
            Some((0, y))
        } else {
            None
        },
    }
}

/// Returns where the cursor goes after a frame is drawn, given where the
/// drawing left it and the terminal width.
pub fn cursor_placement(view: &View, x: usize, y: usize, width: usize) -> (r: Option<(usize, usize)>)
    ensures
        r == cursor_placement_spec(*view, x, y, width),
{
    match view.cursor {
        Some(c) => Some((c.position.x, c.position.y)),
        None => {
            if !view.alt_screen && x >= width.saturating_sub(1) {
                Some((0, y))
            } else {
                None
            }
        },
    }
}

/// The operations that wrap a frame's updates, before and after them.
pub struct FrameWrap {
    /// Operations written before the updates.
    pub before: Vec<TermOp>,
    /// Operations written after the updates.
    pub after: Vec<TermOp>,
}

/// Whether the cursor visibility is written with the frame: on the first
/// frame, when the cursor appears or disappears, and when the screen
/// changes.
pub open spec fn updates_cursor_visibility(
    first: bool,
    did_show: bool,
    show: bool,
    alt_changed: bool,
) -> bool {
    first || did_show != show || alt_changed
}

/// The operations written before a frame's updates: when the screen
/// changes, the keyboard protocols are reset and the screen switched; then
/// synchronized output starts when there are updates, and the cursor is
/// hidden when it must be (without synchronized output also while a shown
/// cursor is updated).
pub open spec fn wrap_before(
    first: bool,
    did_show: bool,
    show: bool,
    alt_changed: bool,
    alt_screen: bool,
    syncd: bool,
    has_updates: bool,
) -> Seq<TermOp> {
    let vis = updates_cursor_visibility(first, did_show, show, alt_changed);
    (if alt_changed {
        seq![
            TermOp::ResetModifyOtherKeys,
            TermOp::KittyKeyboard(0),
            if alt_screen {
                TermOp::SetAltScreenMode
            } else {
                TermOp::ResetAltScreenMode
            },
        ]
    } else {
        Seq::empty()
    }) + (if syncd {
        (if has_updates {
            seq![TermOp::BeginSynchronizedOutput]
        } else {
            Seq::empty()
        }) + (if vis && !show {
            seq![TermOp::TextCursor(false)]
        } else {
            Seq::empty()
        })
    } else if (vis && !show) || (has_updates && show && did_show) {
        seq![TermOp::TextCursor(false)]
    } else {
        Seq::empty()
    })
}

/// The operations written after a frame's updates: the cursor is shown when
/// it must be, and synchronized output ends when there were updates.
pub open spec fn wrap_after(
    first: bool,
    did_show: bool,
    show: bool,
    alt_changed: bool,
    syncd: bool,
    has_updates: bool,
) -> Seq<TermOp> {
    let vis = updates_cursor_visibility(first, did_show, show, alt_changed);
    if syncd {
        (if vis && show {
            seq![TermOp::TextCursor(true)]
        } else {
            Seq::empty()
        }) + (if has_updates {
            seq![TermOp::EndSynchronizedOutput]
        } else {
            Seq::empty()
        })
    } else if (vis && show) || (has_updates && show && did_show) {
        seq![TermOp::TextCursor(true)]
    } else {
        Seq::empty()
    }
}

/// Returns the operations that wrap a frame's updates. `first` tells the
/// first frame, `did_show` and `show` whether the last and the new frame
/// show the cursor.
pub fn frame_wrap(
    first: bool,
    did_show: bool,
    show: bool,
    alt_changed: bool,
    alt_screen: bool,
    syncd: bool,
    has_updates: bool,
) -> (w: FrameWrap)
    ensures
        w.before@ == wrap_before(first, did_show, show, alt_changed, alt_screen, syncd, has_updates),
        w.after@ == wrap_after(first, did_show, show, alt_changed, syncd, has_updates),
{
    let vis = first || did_show != show || alt_changed;
    let mut before: Vec<TermOp> = Vec::new();
    if alt_changed {
        before.push(TermOp::ResetModifyOtherKeys);
        before.push(TermOp::KittyKeyboard(0));
        if alt_screen {
            before.push(TermOp::SetAltScreenMode);
        } else {
            before.push(TermOp::ResetAltScreenMode);
        }
    }
    let ghost b0 = before@;
    if syncd {
        if has_updates {
            before.push(TermOp::BeginSynchronizedOutput);
        }
        if vis && !show {
            before.push(TermOp::TextCursor(false));
        }
    } else if (vis && !show) || (has_updates && show && did_show) {
        before.push(TermOp::TextCursor(false));
    }
    let mut after: Vec<TermOp> = Vec::new();
    if syncd {
        if vis && show {
            after.push(TermOp::TextCursor(true));
        }
        if has_updates {
            after.push(TermOp::EndSynchronizedOutput);
        }
    } else if (vis && show) || (has_updates && show && did_show) {
        after.push(TermOp::TextCursor(true));
    }
    assert(before@ =~= wrap_before(first, did_show, show, alt_changed, alt_screen, syncd, has_updates));
    assert(after@ =~= wrap_after(first, did_show, show, alt_changed, syncd, has_updates));
    FrameWrap { before, after }
}

/// The mouse tracking set for a mode.
pub open spec fn mouse_on(m: MouseMode) -> Seq<TermOp> {
    match m {
        MouseMode::MouseModeNone => Seq::empty(),
        MouseMode::MouseModeCellMotion => seq![TermOp::SetMouseButtonEvents, TermOp::SetMouseExtSgr],
        MouseMode::MouseModeAllMotion => seq![TermOp::SetMouseAnyEvents, TermOp::SetMouseExtSgr],
    }
}

/// The cursor settings restored on start: its color, and its style unless
/// it is the default blinking block.
pub open spec fn start_cursor_ops(c: Option<crate::cursor::Cursor>) -> Seq<TermOp> {
    match c {
        None => Seq::empty(),
        Some(cur) => (match cur.color {
            Some(col) => seq![TermOp::SetCursorColor(col)],
            None => Seq::empty(),
        }) + (if cursor_style(cur.shape, cur.blink) != 0 && cursor_style(cur.shape, cur.blink)
            != 1 {
            seq![TermOp::SetCursorStyle(cursor_style(cur.shape, cur.blink))]
        } else {
            Seq::empty()
        }),
    }
}

/// The screen and cursor part of the restored state: the alternate screen
/// when the last frame used it, the cursor's visibility and its settings.
pub open spec fn start_screen_ops(lv: View) -> Seq<TermOp> {
    (if lv.alt_screen {
        seq![TermOp::AltScreen { enable: true, write: true }]
    } else {
        Seq::empty()
    }) + seq![TermOp::TextCursor(lv.cursor is Some)] + start_cursor_ops(lv.cursor)
}

/// The color and input-mode part of the restored state: default colors,
/// bracketed paste unless disabled, focus reports when asked for.
pub open spec fn start_mode_ops(lv: View) -> Seq<TermOp> {
    (match lv.foreground_color {
        Some(c) => seq![TermOp::SetForegroundColor(c)],
        None => Seq::empty(),
    }) + (match lv.background_color {
        Some(c) => seq![TermOp::SetBackgroundColor(c)],
        None => Seq::empty(),
    }) + (if !lv.disable_bracketed_paste_mode {
        seq![TermOp::SetBracketedPaste]
    } else {
        Seq::empty()
    }) + (if lv.report_focus {
        seq![TermOp::SetFocusEvents]
    } else {
        Seq::empty()
    })
}

/// The last part of the restored state: mouse tracking, the window title,
/// the progress bar and the keyboard protocols.
pub open spec fn start_tail_ops(lv: View) -> Seq<TermOp> {
    mouse_on(lv.mouse_mode) + (if lv.window_title@.len() > 0 {
        seq![TermOp::SetWindowTitle(lv.window_title)]
    } else {
        Seq::empty()
    }) + (if lv.progress_bar is Some {
        seq![progress_op(lv.progress_bar)]
    } else {
        Seq::empty()
    }) + seq![
        TermOp::EnableModifyOtherKeys,
        TermOp::KittyKeyboard(kitty_flags(lv.keyboard_enhancements)),
    ]
}

/// The operations that restore the terminal state of the last frame when
/// the renderer starts again after it was stopped; nothing before the first
/// frame.
pub open spec fn start_ops_spec(last: Option<View>) -> Seq<TermOp> {
    match last {
        None => Seq::empty(),
        Some(lv) => start_screen_ops(lv) + start_mode_ops(lv) + start_tail_ops(lv),
    }
}

fn push_mouse_on(ops: &mut Vec<TermOp>, m: MouseMode)
    ensures
        final(ops)@ == old(ops)@ + mouse_on(m),
{
    match m {
        MouseMode::MouseModeNone => {},
        MouseMode::MouseModeCellMotion => {
            ops.push(TermOp::SetMouseButtonEvents);
            ops.push(TermOp::SetMouseExtSgr);
        },
        MouseMode::MouseModeAllMotion => {
            ops.push(TermOp::SetMouseAnyEvents);
            ops.push(TermOp::SetMouseExtSgr);
        },
    }
    assert(ops@ =~= old(ops)@ + mouse_on(m));
}

fn push_start_cursor_ops(ops: &mut Vec<TermOp>, c: &Option<crate::cursor::Cursor>)
    ensures
        final(ops)@ == old(ops)@ + start_cursor_ops(*c),
{
    if let Some(cur) = c {
        if let Some(col) = cur.color {
            ops.push(TermOp::SetCursorColor(col));
        }
        let style = encode_cursor_style(cur.shape, cur.blink);
        if style != 0 && style != 1 {
            ops.push(TermOp::SetCursorStyle(style));
        }
    }
    assert(ops@ =~= old(ops)@ + start_cursor_ops(*c));
}

fn push_start_screen_ops(ops: &mut Vec<TermOp>, lv: &View)
    ensures
        final(ops)@ == old(ops)@ + start_screen_ops(*lv),
{
    if lv.alt_screen {
        ops.push(TermOp::AltScreen { enable: true, write: true });
    }
    ops.push(TermOp::TextCursor(lv.cursor.is_some()));
    let ghost a = ops@;
    push_start_cursor_ops(ops, &lv.cursor);
    assert(ops@ =~= old(ops)@ + start_screen_ops(*lv));
}

fn push_start_mode_ops(ops: &mut Vec<TermOp>, lv: &View)
    ensures
        final(ops)@ == old(ops)@ + start_mode_ops(*lv),
{
    if let Some(c) = lv.foreground_color {
        ops.push(TermOp::SetForegroundColor(c));
    }
    if let Some(c) = lv.background_color {
        ops.push(TermOp::SetBackgroundColor(c));
    }
    if !lv.disable_bracketed_paste_mode {
        ops.push(TermOp::SetBracketedPaste);
    }
    if lv.report_focus {
        ops.push(TermOp::SetFocusEvents);
    }
    assert(ops@ =~= old(ops)@ + start_mode_ops(*lv));
}

fn push_start_tail_ops(ops: &mut Vec<TermOp>, lv: &View)
    ensures
        final(ops)@ == old(ops)@ + start_tail_ops(*lv),
{
    push_mouse_on(ops, lv.mouse_mode);
    let ghost a = ops@;
    if !lv.window_title.as_str().is_empty() {
        ops.push(TermOp::SetWindowTitle(lv.window_title.clone()));
    }
    if lv.progress_bar.is_some() {
        ops.push(progress_bar_op(lv.progress_bar));
    }
    ops.push(TermOp::EnableModifyOtherKeys);
    let flags = keyboard_enhancements_flags(&lv.keyboard_enhancements);
    ops.push(TermOp::KittyKeyboard(flags));
    assert(ops@ =~= old(ops)@ + start_tail_ops(*lv));
}

/// Returns the operations that restore the terminal state of the last frame
/// when the renderer starts.
pub fn start_ops(last: &Option<View>) -> (ops: Vec<TermOp>)
    ensures
        ops@ == start_ops_spec(*last),
{
    let mut ops: Vec<TermOp> = Vec::new();
    if let Some(lv) = last {
        push_start_screen_ops(&mut ops, lv);
        push_start_mode_ops(&mut ops, lv);
        push_start_tail_ops(&mut ops, lv);
    }
    assert(ops@ =~= start_ops_spec(*last));
    ops
}

/// The operations that reset the cursor settings of the last frame on
/// close: its style unless it is the default blinking block, and its color.
pub open spec fn close_cursor_ops(c: Option<crate::cursor::Cursor>) -> Seq<TermOp> {
    match c {
        None => Seq::empty(),
        Some(cur) => (if cursor_style(cur.shape, cur.blink) != 0 && cursor_style(cur.shape, cur.blink)
            != 1 {
            seq![TermOp::SetCursorStyle(0)]
        } else {
            Seq::empty()
        }) + (if cur.color is Some {
            seq![TermOp::ResetCursorColor]
        } else {
            Seq::empty()
        }),
    }
}

/// The first part of the closing operations: the keyboard protocols are
/// reset, the cursor moves to the bottom, the screen is left or erased below,
/// and a hidden cursor is shown again.
pub open spec fn close_screen_ops(lv: View) -> Seq<TermOp> {
    seq![TermOp::ResetModifyOtherKeys, TermOp::KittyKeyboard(0), TermOp::MoveToBottom] + (
    if lv.alt_screen {
        seq![TermOp::AltScreen { enable: false, write: true }]
    } else {
        seq![TermOp::EraseScreenBelow]
    }) + (if lv.cursor is None {
        seq![TermOp::TextCursor(true)]
    } else {
        Seq::empty()
    })
}

/// The input-mode part of the closing operations: bracketed paste, focus
/// reports, mouse tracking and the window title are undone.
pub open spec fn close_mode_ops(lv: View) -> Seq<TermOp> {
    (if !lv.disable_bracketed_paste_mode {
        seq![TermOp::ResetBracketedPaste]
    } else {
        Seq::empty()
    }) + (if lv.report_focus {
        seq![TermOp::ResetFocusEvents]
    } else {
        Seq::empty()
    }) + (if lv.mouse_mode != MouseMode::MouseModeNone {
        seq![
            TermOp::ResetMouseButtonEvents,
            TermOp::ResetMouseAnyEvents,
            TermOp::ResetMouseExtSgr,
        ]
    } else {
        Seq::empty()
    }) + (if lv.window_title@.len() > 0 {
        seq![TermOp::ClearWindowTitle]
    } else {
        Seq::empty()
    })
}

/// The last part of the closing operations: cursor settings, colors and a
/// visible progress bar are reset.
pub open spec fn close_tail_ops(lv: View) -> Seq<TermOp> {
    close_cursor_ops(lv.cursor) + (if lv.background_color is Some {
        seq![TermOp::ResetBackgroundColor]
    } else {
        Seq::empty()
    }) + (if lv.foreground_color is Some {
        seq![TermOp::ResetForegroundColor]
    } else {
        Seq::empty()
    }) + (if lv.progress_bar matches Some(p) && p.state != ProgressBarState::ProgressBarNone {
        seq![TermOp::ResetProgressBar]
    } else {
        Seq::empty()
    })
}

/// The operations written when the renderer closes: the terminal modes of
/// the last frame are undone (keyboard protocols, screen, cursor, bracketed
/// paste, focus reports, mouse tracking, title, cursor style and colors,
/// progress bar) without forgetting them, and the Unicode core mode is
/// turned off when it was used.
pub open spec fn close_ops_spec(last: Option<View>, grapheme_width: bool) -> Seq<TermOp> {
    (match last {
        None => Seq::empty(),
        Some(lv) => close_screen_ops(lv) + close_mode_ops(lv) + close_tail_ops(lv),
    }) + (if grapheme_width {
        seq![TermOp::ResetUnicodeCore]
    } else {
        Seq::empty()
    })
}

fn push_close_cursor_ops(ops: &mut Vec<TermOp>, c: &Option<crate::cursor::Cursor>)
    ensures
        final(ops)@ == old(ops)@ + close_cursor_ops(*c),
{
    if let Some(cur) = c {
        let style = encode_cursor_style(cur.shape, cur.blink);
        if style != 0 && style != 1 {
            ops.push(TermOp::SetCursorStyle(0));
        }
        if cur.color.is_some() {
            ops.push(TermOp::ResetCursorColor);
        }
    }
    assert(ops@ =~= old(ops)@ + close_cursor_ops(*c));
}

fn push_close_screen_ops(ops: &mut Vec<TermOp>, lv: &View)
    ensures
        final(ops)@ == old(ops)@ + close_screen_ops(*lv),
{
    ops.push(TermOp::ResetModifyOtherKeys);
    ops.push(TermOp::KittyKeyboard(0));
    ops.push(TermOp::MoveToBottom);
    if lv.alt_screen {
        ops.push(TermOp::AltScreen { enable: false, write: true });
    } else {
        ops.push(TermOp::EraseScreenBelow);
    }
    if lv.cursor.is_none() {
        ops.push(TermOp::TextCursor(true));
    }
    assert(ops@ =~= old(ops)@ + close_screen_ops(*lv));
}

fn push_close_mode_ops(ops: &mut Vec<TermOp>, lv: &View)
    ensures
        final(ops)@ == old(ops)@ + close_mode_ops(*lv),
{
    if !lv.disable_bracketed_paste_mode {
        ops.push(TermOp::ResetBracketedPaste);
    }
    if lv.report_focus {
        ops.push(TermOp::ResetFocusEvents);
    }
    if lv.mouse_mode != MouseMode::MouseModeNone {
        ops.push(TermOp::ResetMouseButtonEvents);
        ops.push(TermOp::ResetMouseAnyEvents);
        ops.push(TermOp::ResetMouseExtSgr);
    }
    if !lv.window_title.as_str().is_empty() {
        ops.push(TermOp::ClearWindowTitle);
    }
    assert(ops@ =~= old(ops)@ + close_mode_ops(*lv));
}

fn push_close_tail_ops(ops: &mut Vec<TermOp>, lv: &View)
    ensures
        final(ops)@ == old(ops)@ + close_tail_ops(*lv),
{
    push_close_cursor_ops(ops, &lv.cursor);
    let ghost a = ops@;
    if lv.background_color.is_some() {
        ops.push(TermOp::ResetBackgroundColor);
    }
    if lv.foreground_color.is_some() {
        ops.push(TermOp::ResetForegroundColor);
    }
    let visible_bar = match lv.progress_bar {
        Some(p) => p.state != ProgressBarState::ProgressBarNone,
        None => false,
    };
    if visible_bar {
        ops.push(TermOp::ResetProgressBar);
    }
    assert(ops@ =~= old(ops)@ + close_tail_ops(*lv));
}

/// Returns the operations written when the renderer closes.
pub fn close_ops(last: &Option<View>, grapheme_width: bool) -> (ops: Vec<TermOp>)
    ensures
        ops@ == close_ops_spec(*last, grapheme_width),
{
    let mut ops: Vec<TermOp> = Vec::new();
    if let Some(lv) = last {
        push_close_screen_ops(&mut ops, lv);
        push_close_mode_ops(&mut ops, lv);
        push_close_tail_ops(&mut ops, lv);
    }
    if grapheme_width {
        ops.push(TermOp::ResetUnicodeCore);
    }
    assert(ops@ =~= close_ops_spec(*last, grapheme_width));
    ops
}

/// How lines are inserted above an inline frame: the rows to move down to
/// reach the bottom of the screen, the rows to scroll, and the rows to move
/// back up before inserting.
pub struct InsertLayout {
    /// Rows to move down from the cursor to the last row.
    pub down: usize,
    /// Rows to scroll: one per line plus the extra rows of lines wider than
    /// the screen.
    pub offset: usize,
    /// Rows to move up from the bottom before inserting the lines.
    pub up: usize,
}

/// The extra rows taken by the first `k` lines of the given widths on a
/// screen `w` columns wide.
pub open spec fn wrap_rows(widths: Seq<usize>, w: nat, k: nat) -> nat
    decreases k,
{
    if k == 0 {
        0
    } else {
        wrap_rows(widths, w, (k - 1) as nat) + (if w > 0 && widths[k - 1] > w {
            widths[k - 1] as nat / w
        } else {
            0
        })
    }
}

/// The extra rows never exceed the sum of the widths.
proof fn lemma_wrap_rows_bounded(widths: Seq<usize>, w: nat, k: nat)
    requires
        k <= widths.len(),
    ensures
        wrap_rows(widths, w, k) <= k * usize::MAX,
    decreases k,
{
    if k > 0 {
        lemma_wrap_rows_bounded(widths, w, (k - 1) as nat);
        if w > 0 && widths[k - 1] > w {
            vstd::arithmetic::div_mod::lemma_div_is_ordered_by_denominator(
                widths[k - 1] as int,
                1,
                w as int,
            );
        }
        assert(wrap_rows(widths, w, k) <= (k - 1) * usize::MAX + usize::MAX);
        assert((k - 1) * usize::MAX + usize::MAX == k * usize::MAX) by (nonlinear_arith);
    }
}

/// Returns whether the rows taken by lines of the given display widths on
/// a screen `w` columns wide, plus `h`, fit in `usize`.
pub fn insert_rows_fit(widths: &Vec<usize>, w: usize, h: usize) -> (r: bool)
    ensures
        r == (widths@.len() + wrap_rows(widths@, w as nat, widths@.len()) + h <= usize::MAX),
{
    let mut total: usize = widths.len();
    if h > usize::MAX - total {
        proof {
            lemma_wrap_rows_monotone(widths@, w as nat, 0, widths@.len());
        }
        return false;
    }
    total = total + h;
    let mut i: usize = 0;
    while i < widths.len()
        invariant
            i <= widths@.len(),
            total == widths@.len() + wrap_rows(widths@, w as nat, i as nat) + h,
        decreases widths@.len() - i,
    {
        if w > 0 && widths[i] > w {
            let extra = widths[i] / w;
            if extra > usize::MAX - total {
                proof {
                    lemma_wrap_rows_monotone(widths@, w as nat, (i + 1) as nat, widths@.len());
                }
                return false;
            }
            total = total + extra;
        }
        i = i + 1;
    }
    true
}

/// Returns how lines of the given display widths are inserted above an
/// inline frame on a screen `w` columns by `h` rows with the cursor on row
/// `y`. There is at least one line, and the rows, with those of the
/// screen, fit in `usize`.
pub fn insert_above_layout(widths: &Vec<usize>, w: usize, h: usize, y: usize) -> (l: InsertLayout)
    requires
        widths@.len() >= 1,
        widths@.len() + wrap_rows(widths@, w as nat, widths@.len()) + h <= usize::MAX,
    ensures
        l.down == (if h > y + 1 {
            h - y - 1
        } else {
            0
        }),
        l.offset == widths@.len() + wrap_rows(widths@, w as nat, widths@.len()),
        l.up == l.offset + h - 1,
{
    let down: usize = if h > y && h - y > 1 {
        h - y - 1
    } else {
        0
    };
    let mut extra: usize = 0;
    let mut i: usize = 0;
    while i < widths.len()
        invariant
            i <= widths@.len(),
            extra == wrap_rows(widths@, w as nat, i as nat),
            widths@.len() + wrap_rows(widths@, w as nat, widths@.len()) + h <= usize::MAX,
        decreases widths@.len() - i,
    {
        proof {
            lemma_wrap_rows_monotone(widths@, w as nat, (i + 1) as nat, widths@.len());
        }
        if w > 0 && widths[i] > w {
            extra = extra + widths[i] / w;
        }
        i = i + 1;
    }
    let offset = widths.len() + extra;
    InsertLayout { down, offset, up: offset + h - 1 }
}

/// The extra rows grow with the number of lines counted.
proof fn lemma_wrap_rows_monotone(widths: Seq<usize>, w: nat, j: nat, k: nat)
    requires
        j <= k,
    ensures
        wrap_rows(widths, w, j) <= wrap_rows(widths, w, k),
    decreases k - j,
{
    if j < k {
        lemma_wrap_rows_monotone(widths, w, j, (k - 1) as nat);
    }
}

/// A frame that renders the same as the last one, in the same area and
/// outside a start or a close, is skipped by a flush, which then writes
/// nothing; such a frame changes no terminal mode, and, without updates,
/// nothing is written around it.
pub proof fn law_same_frame_changes_nothing(
    last: View,
    v: View,
    closing: bool,
    syncd: bool,
)
    requires
        same_view(last, v),
    ensures
        skips_frame(false, false, Some(last), v, true),
        mode_changes_spec(Some(last), v, closing) == Seq::<TermOp>::empty(),
        wrap_before(
            false,
            v.cursor is Some,
            v.cursor is Some,
            alt_changed(Some(last), v),
            v.alt_screen,
            syncd,
            false,
        ) == Seq::<TermOp>::empty(),
        wrap_after(
            false,
            v.cursor is Some,
            v.cursor is Some,
            alt_changed(Some(last), v),
            syncd,
            false,
        ) == Seq::<TermOp>::empty(),
{
    assert(mode_changes_spec(Some(last), v, closing) =~= Seq::<TermOp>::empty());
    assert(wrap_before(
        false,
        v.cursor is Some,
        v.cursor is Some,
        alt_changed(Some(last), v),
        v.alt_screen,
        syncd,
        false,
    ) =~= Seq::<TermOp>::empty());
    assert(wrap_after(
        false,
        v.cursor is Some,
        v.cursor is Some,
        alt_changed(Some(last), v),
        syncd,
        false,
    ) =~= Seq::<TermOp>::empty());
}

/// An operation of one of the parts of a frame's mode changes is among the
/// mode changes.
proof fn lemma_mode_part_contained(last: Option<View>, v: View, closing: bool, op: TermOp)
    requires
        alt_ops(last, v).contains(op) || paste_ops(last, v).contains(op) || focus_ops(
            last,
            v,
        ).contains(op) || mouse_ops(last, v).contains(op) || title_ops(last, v).contains(op),
    ensures
        mode_changes_spec(last, v, closing).contains(op),
{
    let a0 = alt_ops(last, v);
    lemma_contains_add(a0, paste_ops(last, v), op);
    let a1 = a0 + paste_ops(last, v);
    lemma_contains_add(a1, focus_ops(last, v), op);
    let a2 = a1 + focus_ops(last, v);
    lemma_contains_add(a2, mouse_ops(last, v), op);
    let a3 = a2 + mouse_ops(last, v);
    lemma_contains_add(a3, title_ops(last, v), op);
    let a4 = a3 + title_ops(last, v);
    lemma_contains_add(a4, kitty_ops(last, v, closing), op);
    let a5 = a4 + kitty_ops(last, v, closing);
    lemma_contains_add(a5, colors_ops(last, v), op);
    let a6 = a5 + colors_ops(last, v);
    lemma_contains_add(a6, cursor_style_ops(last, v), op);
    let a7 = a6 + cursor_style_ops(last, v);
    lemma_contains_add(a7, progress_ops(last, v), op);
    assert(mode_changes_spec(last, v, closing) == a7 + progress_ops(last, v));
}

/// Whenever a setting differs from the last frame, the mode changes switch
/// it to the new frame's value: the screen, bracketed paste, focus reports
/// and mouse tracking.
pub proof fn law_setting_changes_are_written(l: View, v: View, closing: bool)
    ensures
        l.alt_screen != v.alt_screen ==> mode_changes_spec(Some(l), v, closing).contains(
            TermOp::AltScreen { enable: v.alt_screen, write: false },
        ),
        l.disable_bracketed_paste_mode != v.disable_bracketed_paste_mode ==> mode_changes_spec(
            Some(l),
            v,
            closing,
        ).contains(
            if v.disable_bracketed_paste_mode {
                TermOp::ResetBracketedPaste
            } else {
                TermOp::SetBracketedPaste
            },
        ),
        l.report_focus != v.report_focus ==> mode_changes_spec(Some(l), v, closing).contains(
            if v.report_focus {
                TermOp::SetFocusEvents
            } else {
                TermOp::ResetFocusEvents
            },
        ),
        l.mouse_mode != v.mouse_mode ==> mode_changes_spec(Some(l), v, closing).contains(
            match v.mouse_mode {
                MouseMode::MouseModeNone => TermOp::ResetMouseExtSgr,
                MouseMode::MouseModeCellMotion => TermOp::SetMouseButtonEvents,
                MouseMode::MouseModeAllMotion => TermOp::SetMouseAnyEvents,
            },
        ),
{
    let last = Some(l);
    if l.alt_screen != v.alt_screen {
        let op = TermOp::AltScreen { enable: v.alt_screen, write: false };
        assert(alt_ops(last, v)[0] == op);
        lemma_mode_part_contained(last, v, closing, op);
    }
    if l.disable_bracketed_paste_mode != v.disable_bracketed_paste_mode {
        let op = if v.disable_bracketed_paste_mode {
            TermOp::ResetBracketedPaste
        } else {
            TermOp::SetBracketedPaste
        };
        assert(paste_ops(last, v)[0] == op);
        lemma_mode_part_contained(last, v, closing, op);
    }
    if l.report_focus != v.report_focus {
        let op = if v.report_focus {
            TermOp::SetFocusEvents
        } else {
            TermOp::ResetFocusEvents
        };
        assert(focus_ops(last, v)[0] == op);
        lemma_mode_part_contained(last, v, closing, op);
    }
    if l.mouse_mode != v.mouse_mode {
        let m = mouse_ops(last, v);
        match v.mouse_mode {
            MouseMode::MouseModeNone => {
                assert(m[2] == TermOp::ResetMouseExtSgr);
                lemma_mode_part_contained(last, v, closing, TermOp::ResetMouseExtSgr);
            },
            MouseMode::MouseModeCellMotion => {
                assert(m[m.len() - 2] == TermOp::SetMouseButtonEvents);
                lemma_mode_part_contained(last, v, closing, TermOp::SetMouseButtonEvents);
            },
            MouseMode::MouseModeAllMotion => {
                assert(m[m.len() - 2] == TermOp::SetMouseAnyEvents);
                lemma_mode_part_contained(last, v, closing, TermOp::SetMouseAnyEvents);
            },
        }
    }
}

/// The window title is written whenever it changes between frames, and on
/// the first frame when there is one: the mode changes then set the new
/// title.
pub proof fn law_title_change_is_written(last: Option<View>, v: View, closing: bool)
    requires
        match last {
            Some(l) => l.window_title@ != v.window_title@,
            None => v.window_title@.len() > 0,
        },
    ensures
        mode_changes_spec(last, v, closing).contains(TermOp::SetWindowTitle(v.window_title)),
{
    let op = TermOp::SetWindowTitle(v.window_title);
    assert(title_ops(last, v) == seq![op]);
    lemma_contains_one(op, op);
    lemma_mode_part_contained(last, v, closing, op);
}

/// An operation occurs in a concatenation when it occurs in one of its
/// parts.
proof fn lemma_contains_add(a: Seq<TermOp>, b: Seq<TermOp>, x: TermOp)
    ensures
        (a + b).contains(x) <==> a.contains(x) || b.contains(x),
{
    if a.contains(x) {
        let i = choose|i: int| 0 <= i < a.len() && a[i] == x;
        assert((a + b)[i] == x);
    }
    if b.contains(x) {
        let i = choose|i: int| 0 <= i < b.len() && b[i] == x;
        assert((a + b)[a.len() + i] == x);
    }
    if (a + b).contains(x) {
        let i = choose|i: int| 0 <= i < (a + b).len() && (a + b)[i] == x;
        if i < a.len() {
            assert(a[i] == x);
        } else {
            assert(b[i - a.len()] == x);
        }
    }
}

/// What the renderer turns on when it starts again after a stop, it turns
/// off when it closes, both from the last frame: bracketed paste unless the
/// frame disabled it, focus reports, mouse tracking and the alternate
/// screen.
pub proof fn law_close_undoes_start(lv: View)
    ensures
        start_ops_spec(Some(lv)).contains(TermOp::SetBracketedPaste)
            == !lv.disable_bracketed_paste_mode,
        close_ops_spec(Some(lv), false).contains(TermOp::ResetBracketedPaste)
            == !lv.disable_bracketed_paste_mode,
        start_ops_spec(Some(lv)).contains(TermOp::SetFocusEvents) == lv.report_focus,
        close_ops_spec(Some(lv), false).contains(TermOp::ResetFocusEvents) == lv.report_focus,
        start_ops_spec(Some(lv)).contains(TermOp::SetMouseExtSgr) == (lv.mouse_mode
            != MouseMode::MouseModeNone),
        close_ops_spec(Some(lv), false).contains(TermOp::ResetMouseExtSgr) == (lv.mouse_mode
            != MouseMode::MouseModeNone),
        start_ops_spec(Some(lv)).contains(TermOp::AltScreen { enable: true, write: true })
            == lv.alt_screen,
        close_ops_spec(Some(lv), false).contains(TermOp::AltScreen { enable: false, write: true })
            == lv.alt_screen,
{
    lemma_start_law(lv, TermOp::SetBracketedPaste);
    lemma_start_law(lv, TermOp::SetFocusEvents);
    lemma_start_law(lv, TermOp::SetMouseExtSgr);
    lemma_start_law(lv, TermOp::AltScreen { enable: true, write: true });
    lemma_close_law(lv, TermOp::ResetBracketedPaste);
    lemma_close_law(lv, TermOp::ResetFocusEvents);
    lemma_close_law(lv, TermOp::ResetMouseExtSgr);
    lemma_close_law(lv, TermOp::AltScreen { enable: false, write: true });
}

/// Membership of the mode operations in the start operations.
proof fn lemma_start_law(lv: View, x: TermOp)
    requires
        x == TermOp::SetBracketedPaste || x == TermOp::SetFocusEvents || x
            == TermOp::SetMouseExtSgr || x == (TermOp::AltScreen { enable: true, write: true }),
    ensures
        x == TermOp::SetBracketedPaste ==> (start_ops_spec(Some(lv)).contains(x)
            == !lv.disable_bracketed_paste_mode),
        x == TermOp::SetFocusEvents ==> (start_ops_spec(Some(lv)).contains(x) == lv.report_focus),
        x == TermOp::SetMouseExtSgr ==> (start_ops_spec(Some(lv)).contains(x) == (lv.mouse_mode
            != MouseMode::MouseModeNone)),
        x == (TermOp::AltScreen { enable: true, write: true }) ==> (start_ops_spec(
            Some(lv),
        ).contains(x) == lv.alt_screen),
{
    lemma_contains_add(start_screen_ops(lv) + start_mode_ops(lv), start_tail_ops(lv), x);
    lemma_contains_add(start_screen_ops(lv), start_mode_ops(lv), x);
    lemma_start_screen_has(lv, x);
    lemma_start_mode_has(lv, x);
    lemma_start_tail_has(lv, x);
}

/// Membership of the mode operations in the close operations.
proof fn lemma_close_law(lv: View, y: TermOp)
    requires
        y == TermOp::ResetBracketedPaste || y == TermOp::ResetFocusEvents || y
            == TermOp::ResetMouseExtSgr || y == (TermOp::AltScreen { enable: false, write: true }),
    ensures
        y == TermOp::ResetBracketedPaste ==> (close_ops_spec(Some(lv), false).contains(y)
            == !lv.disable_bracketed_paste_mode),
        y == TermOp::ResetFocusEvents ==> (close_ops_spec(Some(lv), false).contains(y)
            == lv.report_focus),
        y == TermOp::ResetMouseExtSgr ==> (close_ops_spec(Some(lv), false).contains(y) == (
        lv.mouse_mode != MouseMode::MouseModeNone)),
        y == (TermOp::AltScreen { enable: false, write: true }) ==> (close_ops_spec(
            Some(lv),
            false,
        ).contains(y) == lv.alt_screen),
{
    assert(close_ops_spec(Some(lv), false) =~= close_screen_ops(lv) + close_mode_ops(lv)
        + close_tail_ops(lv));
    lemma_contains_add(close_screen_ops(lv) + close_mode_ops(lv), close_tail_ops(lv), y);
    lemma_contains_add(close_screen_ops(lv), close_mode_ops(lv), y);
    lemma_close_screen_has(lv, y);
    lemma_close_mode_has(lv, y);
    lemma_close_tail_has(lv, y);
}

/// The operations of the screen part of the start operations.
proof fn lemma_start_screen_has(lv: View, x: TermOp)
    ensures
        start_screen_ops(lv).contains(x) <==> (lv.alt_screen && x == (TermOp::AltScreen {
            enable: true,
            write: true,
        })) || x == TermOp::TextCursor(lv.cursor is Some) || start_cursor_ops(lv.cursor).contains(
            x,
        ),
        start_cursor_ops(lv.cursor).contains(x) ==> (x is SetCursorColor || x is SetCursorStyle),
{
    let alt: Seq<TermOp> = if lv.alt_screen {
        seq![TermOp::AltScreen { enable: true, write: true }]
    } else {
        Seq::empty()
    };
    let tc = seq![TermOp::TextCursor(lv.cursor is Some)];
    assert(start_screen_ops(lv) == alt + tc + start_cursor_ops(lv.cursor));
    lemma_contains_add(alt + tc, start_cursor_ops(lv.cursor), x);
    lemma_contains_add(alt, tc, x);
    lemma_contains_one(TermOp::TextCursor(lv.cursor is Some), x);
    lemma_contains_one(TermOp::AltScreen { enable: true, write: true }, x);
    match lv.cursor {
        None => {},
        Some(cur) => {
            let col: Seq<TermOp> = match cur.color {
                Some(c) => seq![TermOp::SetCursorColor(c)],
                None => Seq::empty(),
            };
            let st: Seq<TermOp> = if cursor_style(cur.shape, cur.blink) != 0 && cursor_style(
                cur.shape,
                cur.blink,
            ) != 1 {
                seq![TermOp::SetCursorStyle(cursor_style(cur.shape, cur.blink))]
            } else {
                Seq::empty()
            };
            assert(start_cursor_ops(lv.cursor) == col + st);
            lemma_contains_add(col, st, x);
            lemma_contains_one(TermOp::SetCursorStyle(cursor_style(cur.shape, cur.blink)), x);
            match cur.color {
                Some(c) => lemma_contains_one(TermOp::SetCursorColor(c), x),
                None => {},
            }
        },
    }
}

/// The operations of the input-mode part of the start operations.
proof fn lemma_start_mode_has(lv: View, x: TermOp)
    ensures
        start_mode_ops(lv).contains(x) <==> (lv.foreground_color matches Some(c) && x
            == TermOp::SetForegroundColor(c)) || (lv.background_color matches Some(c) && x
            == TermOp::SetBackgroundColor(c)) || (!lv.disable_bracketed_paste_mode && x
            == TermOp::SetBracketedPaste) || (lv.report_focus && x == TermOp::SetFocusEvents),
{
    let fg: Seq<TermOp> = match lv.foreground_color {
        Some(c) => seq![TermOp::SetForegroundColor(c)],
        None => Seq::empty(),
    };
    let bg: Seq<TermOp> = match lv.background_color {
        Some(c) => seq![TermOp::SetBackgroundColor(c)],
        None => Seq::empty(),
    };
    let paste: Seq<TermOp> = if !lv.disable_bracketed_paste_mode {
        seq![TermOp::SetBracketedPaste]
    } else {
        Seq::empty()
    };
    let focus: Seq<TermOp> = if lv.report_focus {
        seq![TermOp::SetFocusEvents]
    } else {
        Seq::empty()
    };
    assert(start_mode_ops(lv) == fg + bg + paste + focus);
    lemma_contains_add(fg + bg + paste, focus, x);
    lemma_contains_add(fg + bg, paste, x);
    lemma_contains_add(fg, bg, x);
    lemma_contains_one(TermOp::SetBracketedPaste, x);
    lemma_contains_one(TermOp::SetFocusEvents, x);
    match lv.foreground_color {
        Some(c) => lemma_contains_one(TermOp::SetForegroundColor(c), x),
        None => {},
    }
    match lv.background_color {
        Some(c) => lemma_contains_one(TermOp::SetBackgroundColor(c), x),
        None => {},
    }
}

/// The operations of the last part of the start operations.
proof fn lemma_start_tail_has(lv: View, x: TermOp)
    ensures
        start_tail_ops(lv).contains(x) <==> mouse_on(lv.mouse_mode).contains(x) || (
        lv.window_title@.len() > 0 && x == TermOp::SetWindowTitle(lv.window_title)) || (
        lv.progress_bar is Some && x == progress_op(lv.progress_bar)) || x
            == TermOp::EnableModifyOtherKeys || x == TermOp::KittyKeyboard(
            kitty_flags(lv.keyboard_enhancements),
        ),
        mouse_on(lv.mouse_mode).contains(x) <==> (lv.mouse_mode == MouseMode::MouseModeCellMotion
            && (x == TermOp::SetMouseButtonEvents || x == TermOp::SetMouseExtSgr)) || (lv.mouse_mode
            == MouseMode::MouseModeAllMotion && (x == TermOp::SetMouseAnyEvents || x
            == TermOp::SetMouseExtSgr)),
        progress_op(lv.progress_bar) != TermOp::SetMouseExtSgr,
        progress_op(lv.progress_bar) != TermOp::SetFocusEvents,
        progress_op(lv.progress_bar) != TermOp::SetBracketedPaste,
        progress_op(lv.progress_bar) != (TermOp::AltScreen { enable: true, write: true }),
{
    let title: Seq<TermOp> = if lv.window_title@.len() > 0 {
        seq![TermOp::SetWindowTitle(lv.window_title)]
    } else {
        Seq::empty()
    };
    let pb: Seq<TermOp> = if lv.progress_bar is Some {
        seq![progress_op(lv.progress_bar)]
    } else {
        Seq::empty()
    };
    let keys = seq![
        TermOp::EnableModifyOtherKeys,
        TermOp::KittyKeyboard(kitty_flags(lv.keyboard_enhancements)),
    ];
    assert(start_tail_ops(lv) == mouse_on(lv.mouse_mode) + title + pb + keys);
    lemma_contains_add(mouse_on(lv.mouse_mode) + title + pb, keys, x);
    lemma_contains_add(mouse_on(lv.mouse_mode) + title, pb, x);
    lemma_contains_add(mouse_on(lv.mouse_mode), title, x);
    lemma_contains_one(TermOp::SetWindowTitle(lv.window_title), x);
    lemma_contains_one(progress_op(lv.progress_bar), x);
    lemma_contains_two(
        TermOp::EnableModifyOtherKeys,
        TermOp::KittyKeyboard(kitty_flags(lv.keyboard_enhancements)),
        x,
    );
    lemma_contains_two(TermOp::SetMouseButtonEvents, TermOp::SetMouseExtSgr, x);
    lemma_contains_two(TermOp::SetMouseAnyEvents, TermOp::SetMouseExtSgr, x);
}

/// The operations of the first part of the close operations.
proof fn lemma_close_screen_has(lv: View, y: TermOp)
    ensures
        close_screen_ops(lv).contains(y) <==> y == TermOp::ResetModifyOtherKeys || y
            == TermOp::KittyKeyboard(0) || y == TermOp::MoveToBottom || (lv.alt_screen && y == (
        TermOp::AltScreen { enable: false, write: true })) || (!lv.alt_screen && y
            == TermOp::EraseScreenBelow) || (lv.cursor is None && y == TermOp::TextCursor(true)),
{
    let head = seq![TermOp::ResetModifyOtherKeys, TermOp::KittyKeyboard(0), TermOp::MoveToBottom];
    let scr: Seq<TermOp> = if lv.alt_screen {
        seq![TermOp::AltScreen { enable: false, write: true }]
    } else {
        seq![TermOp::EraseScreenBelow]
    };
    let cur: Seq<TermOp> = if lv.cursor is None {
        seq![TermOp::TextCursor(true)]
    } else {
        Seq::empty()
    };
    assert(close_screen_ops(lv) == head + scr + cur);
    lemma_contains_add(head + scr, cur, y);
    lemma_contains_add(head, scr, y);
    lemma_contains_three(TermOp::ResetModifyOtherKeys, TermOp::KittyKeyboard(0), TermOp::MoveToBottom, y);
    lemma_contains_one(TermOp::AltScreen { enable: false, write: true }, y);
    lemma_contains_one(TermOp::EraseScreenBelow, y);
    lemma_contains_one(TermOp::TextCursor(true), y);
}

/// The operations of the input-mode part of the close operations.
proof fn lemma_close_mode_has(lv: View, y: TermOp)
    ensures
        close_mode_ops(lv).contains(y) <==> (!lv.disable_bracketed_paste_mode && y
            == TermOp::ResetBracketedPaste) || (lv.report_focus && y == TermOp::ResetFocusEvents)
            || (lv.mouse_mode != MouseMode::MouseModeNone && (y == TermOp::ResetMouseButtonEvents
            || y == TermOp::ResetMouseAnyEvents || y == TermOp::ResetMouseExtSgr)) || (
        lv.window_title@.len() > 0 && y == TermOp::ClearWindowTitle),
{
    let paste: Seq<TermOp> = if !lv.disable_bracketed_paste_mode {
        seq![TermOp::ResetBracketedPaste]
    } else {
        Seq::empty()
    };
    let focus: Seq<TermOp> = if lv.report_focus {
        seq![TermOp::ResetFocusEvents]
    } else {
        Seq::empty()
    };
    let mouse: Seq<TermOp> = if lv.mouse_mode != MouseMode::MouseModeNone {
        seq![
            TermOp::ResetMouseButtonEvents,
            TermOp::ResetMouseAnyEvents,
            TermOp::ResetMouseExtSgr,
        ]
    } else {
        Seq::empty()
    };
    let title: Seq<TermOp> = if lv.window_title@.len() > 0 {
        seq![TermOp::ClearWindowTitle]
    } else {
        Seq::empty()
    };
    assert(close_mode_ops(lv) == paste + focus + mouse + title);
    lemma_contains_add(paste + focus + mouse, title, y);
    lemma_contains_add(paste + focus, mouse, y);
    lemma_contains_add(paste, focus, y);
    lemma_contains_one(TermOp::ResetBracketedPaste, y);
    lemma_contains_one(TermOp::ResetFocusEvents, y);
    lemma_contains_one(TermOp::ClearWindowTitle, y);
    lemma_contains_three(
        TermOp::ResetMouseButtonEvents,
        TermOp::ResetMouseAnyEvents,
        TermOp::ResetMouseExtSgr,
        y,
    );
}

/// The operations of the last part of the close operations.
proof fn lemma_close_tail_has(lv: View, y: TermOp)
    ensures
        close_tail_ops(lv).contains(y) ==> y == TermOp::SetCursorStyle(0) || y
            == TermOp::ResetCursorColor || y == TermOp::ResetBackgroundColor || y
            == TermOp::ResetForegroundColor || y == TermOp::ResetProgressBar,
{
    let bg: Seq<TermOp> = if lv.background_color is Some {
        seq![TermOp::ResetBackgroundColor]
    } else {
        Seq::empty()
    };
    let fg: Seq<TermOp> = if lv.foreground_color is Some {
        seq![TermOp::ResetForegroundColor]
    } else {
        Seq::empty()
    };
    let pb: Seq<TermOp> = if lv.progress_bar matches Some(p) && p.state
        != ProgressBarState::ProgressBarNone {
        seq![TermOp::ResetProgressBar]
    } else {
        Seq::empty()
    };
    assert(close_tail_ops(lv) == close_cursor_ops(lv.cursor) + bg + fg + pb);
    lemma_contains_add(close_cursor_ops(lv.cursor) + bg + fg, pb, y);
    lemma_contains_add(close_cursor_ops(lv.cursor) + bg, fg, y);
    lemma_contains_add(close_cursor_ops(lv.cursor), bg, y);
    lemma_contains_one(TermOp::ResetBackgroundColor, y);
    lemma_contains_one(TermOp::ResetForegroundColor, y);
    lemma_contains_one(TermOp::ResetProgressBar, y);
    match lv.cursor {
        None => {},
        Some(cur) => {
            let st: Seq<TermOp> = if cursor_style(cur.shape, cur.blink) != 0 && cursor_style(
                cur.shape,
                cur.blink,
            ) != 1 {
                seq![TermOp::SetCursorStyle(0)]
            } else {
                Seq::empty()
            };
            let col: Seq<TermOp> = if cur.color is Some {
                seq![TermOp::ResetCursorColor]
            } else {
                Seq::empty()
            };
            assert(close_cursor_ops(lv.cursor) == st + col);
            lemma_contains_add(st, col, y);
            lemma_contains_one(TermOp::SetCursorStyle(0), y);
            lemma_contains_one(TermOp::ResetCursorColor, y);
        },
    }
}

/// An operation occurs in a one-element sequence when it is its element.
proof fn lemma_contains_one(a: TermOp, x: TermOp)
    ensures
        seq![a].contains(x) <==> a == x,
{
    if a == x {
        assert(seq![a][0] == x);
    }
}

/// An operation occurs in a two-element sequence when it is one of them.
proof fn lemma_contains_two(a: TermOp, b: TermOp, x: TermOp)
    ensures
        seq![a, b].contains(x) <==> a == x || b == x,
{
    if a == x {
        assert(seq![a, b][0] == x);
    }
    if b == x {
        assert(seq![a, b][1] == x);
    }
}

/// An operation occurs in a three-element sequence when it is one of them.
proof fn lemma_contains_three(a: TermOp, b: TermOp, c: TermOp, x: TermOp)
    ensures
        seq![a, b, c].contains(x) <==> a == x || b == x || c == x,
{
    if a == x {
        assert(seq![a, b, c][0] == x);
    }
    if b == x {
        assert(seq![a, b, c][1] == x);
    }
    if c == x {
        assert(seq![a, b, c][2] == x);
    }
}

} // verus!
