//! Terminal color queries and reports: requests for the background,
//! foreground and cursor colors, and the messages that answer them.
use vstd::prelude::*;

use crate::model::{emit, Cmd, Command, Msg};
use crate::text::{hex_byte, push_hex_byte};

verus! {

/// A 24-bit RGB color.
#[derive(Debug, Clone, Copy, PartialEq, Eq, Structural)]
pub struct RgbColor {
    /// Red component.
    pub r: u8,
    /// Green component.
    pub g: u8,
    /// Blue component.
    pub b: u8,
}

/// The color value carried by the color messages.
pub type Color = RgbColor;

/// The largest of three components.
pub open spec fn max3(a: u8, b: u8, c: u8) -> u8 {
    if a >= b && a >= c {
        a
    } else if b >= c {
        b
    } else {
        c
    }
}

/// The smallest of three components.
pub open spec fn min3(a: u8, b: u8, c: u8) -> u8 {
    if a <= b && a <= c {
        a
    } else if b <= c {
        b
    } else {
        c
    }
}

/// Whether a color is dark: its HSL lightness, (max + min) / 510, is below
/// one half. Rounding the lightness to three decimals cannot move it across
/// one half, since the closest lightness values are 254/510 and 255/510.
pub open spec fn is_dark_spec(c: RgbColor) -> bool {
    max3(c.r, c.g, c.b) + min3(c.r, c.g, c.b) < 255
}

/// The `#rrggbb` lower-case hexadecimal form of a color.
pub open spec fn hex_spec(c: RgbColor) -> Seq<char> {
    seq!['#'] + hex_byte(c.r, false) + hex_byte(c.g, false) + hex_byte(c.b, false)
}

/// Returns the largest and the smallest of three components.
pub fn max_min(a: u8, b: u8, c: u8) -> (res: (u8, u8))
    ensures
        res.0 == max3(a, b, c),
        res.1 == min3(a, b, c),
{
    let ma = if a >= b && a >= c {
        a
    } else if b >= c {
        b
    } else {
        c
    };
    let mi = if a <= b && a <= c {
        a
    } else if b <= c {
        b
    } else {
        c
    };
    (ma, mi)
}

/// Returns whether the given color is dark (HSL lightness below one half).
pub fn is_dark_color(c: RgbColor) -> (dark: bool)
    ensures
        dark == is_dark_spec(c),
{
    let (ma, mi) = max_min(c.r, c.g, c.b);
    (ma as u16) + (mi as u16) < 255
}

impl RgbColor {
    /// Returns the `#rrggbb` lower-case hexadecimal form of the color.
    pub fn hex(&self) -> (s: String)
        ensures
            s@ == hex_spec(*self),
    {
        let mut s = "#".to_owned();
        proof {
            reveal_strlit("#");
        }
        push_hex_byte(&mut s, self.r, false);
        push_hex_byte(&mut s, self.g, false);
        push_hex_byte(&mut s, self.b, false);
        s
    }
}

/// RequestBackgroundColorMsg asks the program to query the terminal
/// background color.
#[derive(Debug, Clone, Copy, PartialEq, Eq)]
pub struct RequestBackgroundColorMsg;

/// RequestBackgroundColor is a command that requests the terminal background
/// color.
pub fn request_background_color<M, W>() -> (c: Cmd<M, W>)
    ensures
        c == emit(Msg::<M, W>::RequestBackgroundColor(RequestBackgroundColorMsg)),
{
    Some(Command::Emit(Msg::RequestBackgroundColor(RequestBackgroundColorMsg)))
}

/// RequestForegroundColorMsg asks the program to query the terminal
/// foreground color.
#[derive(Debug, Clone, Copy, PartialEq, Eq)]
pub struct RequestForegroundColorMsg;

/// RequestForegroundColor is a command that requests the terminal foreground
/// color.
pub fn request_foreground_color<M, W>() -> (c: Cmd<M, W>)
    ensures
        c == emit(Msg::<M, W>::RequestForegroundColor(RequestForegroundColorMsg)),
{
    Some(Command::Emit(Msg::RequestForegroundColor(RequestForegroundColorMsg)))
}

/// RequestCursorColorMsg asks the program to query the terminal cursor color.
#[derive(Debug, Clone, Copy, PartialEq, Eq)]
pub struct RequestCursorColorMsg;

/// RequestCursorColor is a command that requests the terminal cursor color.
pub fn request_cursor_color<M, W>() -> (c: Cmd<M, W>)
    ensures
        c == emit(Msg::<M, W>::RequestCursorColor(RequestCursorColorMsg)),
{
    Some(Command::Emit(Msg::RequestCursorColor(RequestCursorColorMsg)))
}

/// ForegroundColorMsg reports the terminal foreground color.
#[derive(Debug, Clone, Copy, PartialEq, Eq)]
pub struct ForegroundColorMsg(pub Color);

impl ForegroundColorMsg {
    /// Returns the hexadecimal form of the color.
    pub fn to_hex(&self) -> (s: String)
        ensures
            s@ == hex_spec(self.0),
    {
        self.0.hex()
    }

    /// Returns whether the color is dark.
    pub fn is_dark(&self) -> (dark: bool)
        ensures
            dark == is_dark_spec(self.0),
    {
        is_dark_color(self.0)
    }
}

/// BackgroundColorMsg reports the terminal background color; `is_dark`
/// tells dark backgrounds from light ones.
#[derive(Debug, Clone, Copy, PartialEq, Eq)]
pub struct BackgroundColorMsg(pub Color);

impl BackgroundColorMsg {
    /// Returns the hexadecimal form of the color.
    pub fn to_hex(&self) -> (s: String)
        ensures
            s@ == hex_spec(self.0),
    {
        self.0.hex()
    }

    /// Returns whether the color is dark.
    pub fn is_dark(&self) -> (dark: bool)
        ensures
            dark == is_dark_spec(self.0),
    {
        is_dark_color(self.0)
    }
}

/// CursorColorMsg reports the terminal cursor color.
#[derive(Debug, Clone, Copy, PartialEq, Eq)]
pub struct CursorColorMsg(pub Color);

impl CursorColorMsg {
    /// Returns the hexadecimal form of the color.
    pub fn to_hex(&self) -> (s: String)
        ensures
            s@ == hex_spec(self.0),
    {
        self.0.hex()
    }

    /// Returns whether the color is dark.
    pub fn is_dark(&self) -> (dark: bool)
        ensures
            dark == is_dark_spec(self.0),
    {
        is_dark_color(self.0)
    }
}

} // verus!
