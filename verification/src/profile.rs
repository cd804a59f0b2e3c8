//! Terminal color profiles: the profile a program reports to its model and
//! the finer profile that renderers downsample colors to.
use vstd::prelude::*;

verus! {

/// ColorProfile represents the color support of a terminal.
#[derive(Debug, Clone, Copy, PartialEq, Eq, Structural)]
pub enum ColorProfile {
    /// 24-bit RGB colors.
    TrueColor,
    /// 256 indexed colors.
    ANSI256,
    /// 16 basic colors.
    ANSI,
    /// No colors.
    Ascii,
}

/// ColorProfileMsg reports the terminal's color profile.
#[derive(Debug, Clone, Copy, PartialEq, Eq)]
pub struct ColorProfileMsg {
    /// The profile.
    pub profile: ColorProfile,
}

/// The color profile a renderer downsamples to, including the profiles of
/// outputs that are not terminals and of undetermined outputs.
#[derive(Debug, Clone, Copy, PartialEq, Eq, Structural)]
pub enum RenderProfile {
    /// 24-bit RGB colors.
    TrueColor,
    /// 256 indexed colors.
    Ansi256,
    /// 16 basic colors.
    Ansi,
    /// No colors.
    Ascii,
    /// The output is not a terminal.
    NoTty,
    /// The profile is not known.
    Unknown,
}

/// The renderer profile of a public color profile.
pub open spec fn render_profile_spec(p: ColorProfile) -> RenderProfile {
    match p {
        ColorProfile::TrueColor => RenderProfile::TrueColor,
        ColorProfile::ANSI256 => RenderProfile::Ansi256,
        ColorProfile::ANSI => RenderProfile::Ansi,
        ColorProfile::Ascii => RenderProfile::Ascii,
    }
}

/// The public profile reported for a renderer profile: outputs without
/// colors, that are not terminals or whose profile is unknown report `Ascii`.
pub open spec fn reported_profile_spec(p: RenderProfile) -> ColorProfile {
    match p {
        RenderProfile::TrueColor => ColorProfile::TrueColor,
        RenderProfile::Ansi256 => ColorProfile::ANSI256,
        RenderProfile::Ansi => ColorProfile::ANSI,
        _ => ColorProfile::Ascii,
    }
}

/// Maps the public color profile to the renderer's profile.
pub fn render_profile(p: ColorProfile) -> (r: RenderProfile)
    ensures
        r == render_profile_spec(p),
{
    match p {
        ColorProfile::TrueColor => RenderProfile::TrueColor,
        ColorProfile::ANSI256 => RenderProfile::Ansi256,
        ColorProfile::ANSI => RenderProfile::Ansi,
        ColorProfile::Ascii => RenderProfile::Ascii,
    }
}

/// Maps a renderer profile to the profile reported to the model.
pub fn reported_profile(p: RenderProfile) -> (r: ColorProfile)
    ensures
        r == reported_profile_spec(p),
{
    match p {
        RenderProfile::TrueColor => ColorProfile::TrueColor,
        RenderProfile::Ansi256 => ColorProfile::ANSI256,
        RenderProfile::Ansi => ColorProfile::ANSI,
        _ => ColorProfile::Ascii,
    }
}

/// Reporting the renderer profile made from a public profile gives that
/// public profile back.
pub proof fn law_profile_round_trip(p: ColorProfile)
    ensures
        reported_profile_spec(render_profile_spec(p)) == p,
{
}

} // verus!
