use vstd::prelude::*;

use crate::color::Color;

verus! {

/// The concrete style an icon is drawn with, after cascading resolution.
#[derive(Clone, Copy, Debug, PartialEq, Eq, Structural)]
pub struct IconStyle {
    /// The side of the square the icon occupies, in layout units.
    pub size: u32,
    /// The color of the icon.
    pub color: Color,
}

/// The ambient styling an icon instance resolves against: the optional
/// style-sheet entries under the icon keys, and the active theme's
/// contrast color.
#[derive(Clone, Copy, Debug, PartialEq, Eq, Structural)]
pub struct StyleContext {
    /// The style-sheet entry under the icon size key, if the sheet defines one.
    pub icon_size: Option<u32>,
    /// The style-sheet entry under the icon color key, if the sheet defines one.
    pub icon_color: Option<Color>,
    /// The active theme's contrast color.
    pub theme_contrast: Color,
}

impl StyleContext {
    /// An ambient context with no style-sheet entries whose theme holds
    /// the hard-coded fallback contrast: opaque black.
    pub fn plain() -> (c: StyleContext)
        ensures
            c == StyleContext::spec_plain(),
    {
        StyleContext { icon_size: None, icon_color: None, theme_contrast: Color::black() }
    }

    /// The plain ambient context as a specification value.
    pub open spec fn spec_plain() -> StyleContext {
        StyleContext { icon_size: None, icon_color: None, theme_contrast: Color::spec_black() }
    }
}

/// The hard-coded fallback size, used when neither the instance nor the
/// ambient style sheet gives one.
pub open spec fn spec_default_size() -> u32 {
    16
}

/// The size `resolve` yields: the instance override wins; else the ambient
/// style-sheet entry; else the hard-coded fallback.
pub open spec fn spec_resolve_size(size_override: Option<u32>, ambient: StyleContext) -> u32 {
    if size_override is Some {
        size_override->0
    } else if ambient.icon_size is Some {
        ambient.icon_size->0
    } else {
        spec_default_size()
    }
}

/// The color `resolve` yields: the instance override wins; else the
/// ambient style-sheet entry; else the theme's contrast color.
pub open spec fn spec_resolve_color(color_override: Option<Color>, ambient: StyleContext) -> Color {
    if color_override is Some {
        color_override->0
    } else if ambient.icon_color is Some {
        ambient.icon_color->0
    } else {
        ambient.theme_contrast
    }
}

/// Resolve the declarative overrides against the ambient context. Each
/// field cascades independently: instance override, then style-sheet
/// entry, then theme derivation (color only), then the hard-coded
/// fallback.
pub fn resolve(
    size_override: Option<u32>,
    color_override: Option<Color>,
    ambient: &StyleContext,
) -> (r: IconStyle)
    ensures
        r.size == spec_resolve_size(size_override, *ambient),
        r.color == spec_resolve_color(color_override, *ambient),
{
    let size: u32 = match size_override {
        Some(s) => s,
        None => match ambient.icon_size {
            Some(s) => s,
            None => 16,
        },
    };
    let color: Color = match color_override {
        Some(c) => c,
        None => match ambient.icon_color {
            Some(c) => c,
            None => ambient.theme_contrast,
        },
    };
    IconStyle { size, color }
}

/// Which kinds of re-work a style change demands.
#[derive(Clone, Copy, Debug, PartialEq, Eq, Structural)]
pub struct RebuildFlags {
    /// The size changed, so the instance must be laid out again.
    pub layout_dirty: bool,
    /// The color changed, so the instance must be painted again.
    pub paint_dirty: bool,
}

/// Classify a re-resolution: layout is dirty exactly when the size
/// changed, paint exactly when the color changed, so a pure recolor
/// skips size renegotiation and a pure resize skips repaint work.
pub fn diff(old: &IconStyle, new: &IconStyle) -> (r: RebuildFlags)
    ensures
        r.layout_dirty == (old.size != new.size),
        r.paint_dirty == (old.color != new.color),
{
    RebuildFlags { layout_dirty: old.size != new.size, paint_dirty: old.color != new.color }
}

/// An instance override always beats the ambient style sheet: whenever an
/// override is present, the resolved field equals it, whatever the
/// ambient context holds.
pub proof fn lemma_override_wins(size: u32, color: Color, ambient: StyleContext)
    ensures
        spec_resolve_size(Some(size), ambient) == size,
        spec_resolve_color(Some(color), ambient) == color,
{
}

/// The ambient style sheet beats the defaults: with no instance override,
/// a style-sheet entry decides the field, whatever the theme holds.
pub proof fn lemma_ambient_beats_default(size: u32, color: Color, theme_contrast: Color)
    ensures
        spec_resolve_size(
            None,
            StyleContext { icon_size: Some(size), icon_color: Some(color), theme_contrast },
        ) == size,
        spec_resolve_color(
            None,
            StyleContext { icon_size: Some(size), icon_color: Some(color), theme_contrast },
        ) == color,
{
}

} // verus!
