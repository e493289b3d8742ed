use vstd::prelude::*;

use crate::color::Color;
use crate::engine::ShapedRun;
use crate::font::{spec_select, select, IconFont};
use crate::glyph::IconCode;
use crate::space::{Size, Space};
use crate::style::{diff, resolve, spec_resolve_color, spec_resolve_size, IconStyle, RebuildFlags,
    StyleContext};

verus! {

/// A view that displays a single icon.
///
/// The declarative, per-frame value: which glyph to draw, whether the
/// solid family is preferred, and optional per-instance size and color
/// overrides. It carries no identity beyond its place in the tree and is
/// rebuilt fresh every frame by the caller.
#[derive(Clone, Debug)]
pub struct Icon {
    /// The glyph to display.
    pub icon: IconCode,
    /// Whether the solid family is preferred where the glyph exists in
    /// both the solid and the regular family.
    pub solid: bool,
    /// The per-instance size override.
    pub size: Option<u32>,
    /// The per-instance color override.
    pub color: Option<Color>,
}

/// Create a new [`Icon`].
pub fn icon(code: IconCode) -> (r: Icon)
    ensures
        r.icon == code,
        r.solid == false,
        r.size is None,
        r.color is None,
{
    Icon::new(code)
}

impl Icon {
    /// The descriptor is usable once its glyph is: the glyph names at
    /// least one family.
    pub open spec fn wf(self) -> bool {
        self.icon.wf()
    }

    /// Create a new icon view with no overrides and the regular family
    /// preferred.
    pub fn new(code: IconCode) -> (r: Icon)
        ensures
            r.icon == code,
            r.solid == false,
            r.size is None,
            r.color is None,
    {
        Icon { icon: code, solid: false, size: None, color: None }
    }

    /// Prefer (or stop preferring) the solid family.
    pub fn with_solid(self, solid: bool) -> (r: Icon)
        ensures
            r == (Icon { solid, ..self }),
    {
        Icon { solid, ..self }
    }

    /// Override the resolved size for this instance.
    pub fn with_size(self, size: u32) -> (r: Icon)
        ensures
            r == (Icon { size: Some(size), ..self }),
    {
        Icon { size: Some(size), ..self }
    }

    /// Override the resolved color for this instance.
    pub fn with_color(self, color: Color) -> (r: Icon)
        ensures
            r == (Icon { color: Some(color), ..self }),
    {
        Icon { color: Some(color), ..self }
    }

    /// The family this descriptor selects for its glyph.
    pub open spec fn spec_font(self) -> IconFont {
        spec_select(self.icon.fonts@, self.solid)
    }

    /// Get the font to use for the icon: the solid preference decides
    /// where the glyph exists in both the regular and the solid family,
    /// else the glyph's first declared family is used.
    pub fn font(&self) -> (r: IconFont)
        requires
            self.wf(),
        ensures
            r == self.spec_font(),
    {
        select(&self.icon.fonts, self.solid)
    }

    /// The style this descriptor resolves to under an ambient context.
    pub open spec fn spec_style(self, ambient: StyleContext) -> IconStyle {
        IconStyle {
            size: spec_resolve_size(self.size, ambient),
            color: spec_resolve_color(self.color, ambient),
        }
    }

    /// Resolve the instance's style against the ambient context: each
    /// field independently takes the instance override if present, else
    /// the ambient style-sheet entry, else the default.
    pub fn style(&self, ambient: &StyleContext) -> (r: IconStyle)
        ensures
            r == self.spec_style(*ambient),
    {
        resolve(self.size, self.color, ambient)
    }

    /// The shaping request this descriptor asks the text engine for,
    /// under a resolved style.
    pub open spec fn spec_request(self, style: IconStyle) -> ShapeRequest {
        ShapeRequest {
            codepoint: self.icon.codepoint,
            family: self.spec_font(),
            size: style.size,
            color: style.color,
        }
    }

    /// Build the shaping request for this descriptor under a resolved
    /// style: the glyph's codepoint, the selected family, and the
    /// resolved size and color.
    pub fn shape_request(&self, style: &IconStyle) -> (r: ShapeRequest)
        requires
            self.wf(),
        ensures
            r == self.spec_request(*style),
    {
        ShapeRequest {
            codepoint: self.icon.codepoint,
            family: self.font(),
            size: style.size,
            color: style.color,
        }
    }
}

/// Everything the text engine needs to shape one glyph: the parameters a
/// shaped run encodes.
#[derive(Clone, Copy, Debug, PartialEq, Eq, Structural)]
pub struct ShapeRequest {
    /// The character to shape.
    pub codepoint: char,
    /// The family to shape it with.
    pub family: IconFont,
    /// The font size.
    pub size: u32,
    /// The color the run is drawn in.
    pub color: Color,
}

/// The persistent render state of one live icon instance: the style last
/// resolved for it and the shaped run prepared at that style. Created at
/// construction, updated in place every frame, dropped when the instance
/// leaves the tree.
pub struct IconState {
    /// The most recently resolved style.
    pub style: IconStyle,
    /// The shaped run prepared at that style.
    pub run: ShapedRun,
}

impl IconState {
    /// The state an instance must hold after any lifecycle transition
    /// under descriptor `icon` and ambient `ambient`: the stored style is
    /// the one the descriptor resolves to, and the shaped run encodes the
    /// glyph at exactly that style — never stale by more than the
    /// current update.
    pub open spec fn consistent_with(self, icon: Icon, ambient: StyleContext) -> bool {
        &&& self.style == icon.spec_style(ambient)
        &&& self.run.request == icon.spec_request(icon.spec_style(ambient))
    }
}

/// The application-context marker that makes font registration happen at
/// most once per context: absent until the first icon is constructed in
/// the context, present from then on, never reset.
#[derive(Clone, Copy, Debug, PartialEq, Eq, Structural)]
pub struct IconContext {
    /// Whether the bundled fonts were already handed to the text engine
    /// in this context.
    pub fonts_registered: bool,
}

/// What one registration check does to a context: the flag is set
/// afterwards in every case, and the fonts are submitted exactly when the
/// flag was not set before.
pub open spec fn spec_register(c: IconContext) -> (IconContext, bool) {
    (IconContext { fonts_registered: true }, !c.fonts_registered)
}

impl IconContext {
    /// A fresh application context in which no fonts are registered yet.
    pub fn new() -> (c: IconContext)
        ensures
            !c.fonts_registered,
    {
        IconContext { fonts_registered: false }
    }

    /// Check-then-act registration gate: returns whether the bundled
    /// fonts must be submitted to the text engine now, which is the case
    /// exactly once per context, at the first construction.
    pub fn ensure_registered(&mut self) -> (submit: bool)
        ensures
            (*final(self), submit) == spec_register(*old(self)),
    {
        let submit = !self.fonts_registered;
        self.fonts_registered = true;
        submit
    }
}

/// Registration is idempotent. In any chain of gate consultations on one
/// context, the fonts are submitted at the earliest consultation alone:
/// a later consultation submits nothing and changes nothing.
pub proof fn lemma_register_once(c: IconContext)
    ensures
        spec_register(spec_register(c).0).1 == false,
        spec_register(spec_register(c).0).0 == spec_register(c).0,
{
}

impl Icon {
    /// Construct the persistent render state for a new instance: resolve
    /// the style, select the family, request a shaped run at the resolved
    /// parameters, and consult the registration gate so the bundled fonts
    /// reach the text engine on the first construction in this context.
    pub fn build(&self, ambient: &StyleContext, ctx: &mut IconContext) -> (state: IconState)
        requires
            self.wf(),
        ensures
            state.consistent_with(*self, *ambient),
            *final(ctx) == spec_register(*old(ctx)).0,
    {
        let _ = ctx.ensure_registered();
        let style = self.style(ambient);
        let request = self.shape_request(&style);
        IconState { style, run: ShapedRun::shape(request) }
    }

    /// Re-validate a live instance against this frame's descriptor:
    /// re-resolve the style, classify what re-work the change demands,
    /// and re-request the shaped run only where the parameters it encodes
    /// changed — an unchanged run is reused as it stands, so the
    /// transition is safe to run every frame without stale state. The
    /// host hands the previous frame's descriptor in as well; the dirty
    /// classification needs only the stored style, so it goes unread.
    pub fn rebuild(&self, state: &mut IconState, ambient: &StyleContext, _old_icon: &Icon) -> (r:
        RebuildFlags)
        requires
            self.wf(),
        ensures
            final(state).consistent_with(*self, *ambient),
            r.layout_dirty == (old(state).style.size != self.spec_style(*ambient).size),
            r.paint_dirty == (old(state).style.color != self.spec_style(*ambient).color),
            old(state).run.request == self.spec_request(self.spec_style(*ambient))
                ==> final(state).run == old(state).run,
    {
        let style = self.style(ambient);
        let flags = diff(&state.style, &style);
        let request = self.shape_request(&style);
        if !(request == state.run.request) {
            state.run = ShapedRun::shape(request);
        }
        state.style = style;
        flags
    }

    /// The icon view consumes no input: events always pass through to
    /// ancestors or siblings, and the render state is untouched.
    pub fn event(&self, state: &mut IconState) -> (handled: bool)
        ensures
            handled == false,
            *final(state) == *old(state),
    {
        false
    }

    /// Negotiate the instance's size: its natural size is a square of
    /// side the resolved style's size, clamped into the offered space.
    /// The shaped run's own ink extent plays no part.
    pub fn layout(&self, state: &IconState, space: &Space) -> (r: Size)
        requires
            space.wf(),
        ensures
            r == space.spec_fit(Size { width: state.style.size, height: state.style.size }),
    {
        space.fit(Size::all(state.style.size))
    }

    /// Where painting places the shaped run inside the box the instance
    /// was laid out at: offset by half the per-axis difference between
    /// the box and the run's measured extent, so the run sits centered.
    pub fn draw_origin(&self, box_size: &Size, run_extent: &Size) -> (r: (i64, i64))
        ensures
            r.0 == crate::space::spec_center_offset(box_size.width, run_extent.width),
            r.1 == crate::space::spec_center_offset(box_size.height, run_extent.height),
    {
        (
            crate::space::center_offset(box_size.width, run_extent.width),
            crate::space::center_offset(box_size.height, run_extent.height),
        )
    }
}

} // verus!
