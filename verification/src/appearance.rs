//! What the renderer is told to draw: colors by severity, layout by the
//! expanded flag.

use crate::severity::LogSeverity;
use vstd::prelude::*;

verus! {

/// A color of the bar, by its role in the palette. The renderer maps each
/// role to a concrete color.
#[derive(Clone, Copy, Debug, PartialEq, Eq, Structural, Hash)]
pub enum BarColor {
    Black,
    ErrorLight,
    WarningLight,
    InfoLight,
    ThemeForeground,
    ThemeLighterBackground,
}

/// What happens to text that is wider than the bar.
#[derive(Clone, Copy, Debug, PartialEq, Eq, Structural, Hash)]
pub enum TextWrap {
    Truncate,
    Wrap,
}

/// Where the content sits across the height of the bar.
#[derive(Clone, Copy, Debug, PartialEq, Eq, Structural, Hash)]
pub enum BarAlignment {
    Top,
    Center,
}

/// Whether the height of the bar is limited to one line of text.
#[derive(Clone, Copy, Debug, PartialEq, Eq, Structural, Hash)]
pub enum HeightPolicy {
    Capped,
    Unbounded,
}

/// The button that the bar offers, and the action of the user who presses it.
#[derive(Clone, Copy, Debug, PartialEq, Eq, Structural, Hash)]
pub enum BarControl {
    Expand,
    Reduce,
}

/// Everything about a frame of the bar but its text.
#[derive(Clone, Copy, Debug, PartialEq, Eq, Structural, Hash)]
pub struct BarStyle {
    pub foreground: BarColor,
    pub background: BarColor,
    pub wrap: TextWrap,
    pub alignment: BarAlignment,
    pub height: HeightPolicy,
    pub control: BarControl,
}

/// One frame of the bar, as handed to the renderer.
#[derive(Clone, Debug)]
pub struct NotificationFrame {
    pub text: String,
    pub style: BarStyle,
}

/// Text color for a severity: black on the log colors, the theme's foreground
/// on the neutral background of `Debug`.
pub open spec fn foreground_for(level: LogSeverity) -> BarColor {
    match level {
        LogSeverity::Debug => BarColor::ThemeForeground,
        _ => BarColor::Black,
    }
}

/// Fill color for a severity: the light log color of the severity, and for
/// `Debug` the theme's lighter background.
pub open spec fn background_for(level: LogSeverity) -> BarColor {
    match level {
        LogSeverity::Error => BarColor::ErrorLight,
        LogSeverity::Warning => BarColor::WarningLight,
        LogSeverity::Info => BarColor::InfoLight,
        LogSeverity::Debug => BarColor::ThemeLighterBackground,
    }
}

/// The style of a bar that shows a message of severity `level`, collapsed or
/// expanded. Collapsed, the bar is capped in height, truncates its text and
/// offers `Expand`; expanded, it grows, wraps its text and offers `Reduce`.
pub open spec fn style_for(level: LogSeverity, expanded: bool) -> BarStyle {
    BarStyle {
        foreground: foreground_for(level),
        background: background_for(level),
        wrap: if expanded { TextWrap::Wrap } else { TextWrap::Truncate },
        alignment: if expanded { BarAlignment::Center } else { BarAlignment::Top },
        height: if expanded { HeightPolicy::Unbounded } else { HeightPolicy::Capped },
        control: if expanded { BarControl::Reduce } else { BarControl::Expand },
    }
}

/// Foreground and background for a severity.
pub fn colors(level: LogSeverity) -> (pair: (BarColor, BarColor))
    ensures
        pair.0 == foreground_for(level),
        pair.1 == background_for(level),
{
    match level {
        LogSeverity::Error => (BarColor::Black, BarColor::ErrorLight),
        LogSeverity::Warning => (BarColor::Black, BarColor::WarningLight),
        LogSeverity::Info => (BarColor::Black, BarColor::InfoLight),
        LogSeverity::Debug => (BarColor::ThemeForeground, BarColor::ThemeLighterBackground),
    }
}

/// The style for a severity and an expanded flag.
pub fn style(level: LogSeverity, expanded: bool) -> (s: BarStyle)
    ensures
        s == style_for(level, expanded),
{
    let (foreground, background) = colors(level);
    let alignment = if !expanded {
        BarAlignment::Top
    } else {
        BarAlignment::Center
    };
    let height = if !expanded {
        HeightPolicy::Capped
    } else {
        HeightPolicy::Unbounded
    };
    let wrap = if !expanded {
        TextWrap::Truncate
    } else {
        TextWrap::Wrap
    };
    let control = if !expanded {
        BarControl::Expand
    } else {
        BarControl::Reduce
    };
    BarStyle { foreground, background, wrap, alignment, height, control }
}

/// The colors depend on the severity alone and tell the severities apart:
/// text and fill always differ, two severities never share a fill, and only
/// `Debug` takes its pair from the theme.
pub proof fn lemma_colors_tell_severities_apart(a: LogSeverity, b: LogSeverity, expanded: bool)
    ensures
        foreground_for(a) != background_for(a),
        background_for(a) == background_for(b) ==> a == b,
        foreground_for(a) == BarColor::ThemeForeground <==> a == LogSeverity::Debug,
        style_for(a, expanded).foreground == style_for(a, !expanded).foreground,
        style_for(a, expanded).background == style_for(a, !expanded).background,
{
}

} // verus!
