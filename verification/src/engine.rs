use vstd::prelude::*;

use crate::color::Color;
use crate::view::ShapeRequest;

verus! {

/// Declares ori's `TextSection`, the text engine's prepared
/// representation of a run: held opaquely as the shaped-run handle.
#[verifier::external_type_specification]
#[verifier::external_body]
pub struct ExTextSection(ori::graphics::TextSection);

/// Relies on ori's `TextSection` literal and `Color::rgba8`: builds the
/// text engine's prepared representation of one glyph at the given
/// family, size and color, with wrapping off and start alignment, as a
/// value the engine can measure and draw.
#[verifier::external_body]
fn make_section(codepoint: char, family_name: &str, size: u32, color: Color) -> (r:
    ori::graphics::TextSection) {
    let mut text = String::new();
    text.push(codepoint);
    ori::graphics::TextSection {
        scale: size as _,
        wrap: false,
        text,
        font: Some(family_name.to_owned()),
        color: ori::graphics::Color::rgba8(color.r, color.g, color.b, color.a),
        ..Default::default()
    }
}

/// The shaped run an instance keeps across frames: the engine's prepared
/// representation of the glyph, together with the request it was shaped
/// from, which records exactly what the run encodes.
pub struct ShapedRun {
    /// The parameters the stored section was shaped at.
    pub request: ShapeRequest,
    /// The engine-side representation, built from `request` alone.
    pub section: ori::graphics::TextSection,
}

impl ShapedRun {
    /// Request a shaped run from the text engine at the given parameters.
    pub fn shape(request: ShapeRequest) -> (r: ShapedRun)
        ensures
            r.request == request,
    {
        let family_name = request.family.family_name();
        let section = make_section(request.codepoint, family_name, request.size, request.color);
        ShapedRun { request, section }
    }
}

} // verus!
