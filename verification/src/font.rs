use vstd::prelude::*;

verus! {

/// One of the bundled icon font families.
#[derive(Clone, Copy, Debug, PartialEq, Eq, Structural)]
pub enum IconFont {
    /// The regular (outline) family.
    Regular,
    /// The solid family.
    Solid,
    /// The brand-logo family.
    Brand,
}

impl IconFont {
    /// The logical name the family is registered under with the text engine.
    pub fn family_name(&self) -> (r: &'static str)
        ensures
            r@ == self.spec_family_name(),
    {
        match self {
            IconFont::Regular => "FA6 Regular",
            IconFont::Solid => "FA6 Solid",
            IconFont::Brand => "FA6 Brands",
        }
    }

    /// The logical family name as a specification value.
    pub open spec fn spec_family_name(self) -> Seq<char> {
        match self {
            IconFont::Regular => "FA6 Regular"@,
            IconFont::Solid => "FA6 Solid"@,
            IconFont::Brand => "FA6 Brands"@,
        }
    }

    /// The font weight the family is shaped at: the solid family is a
    /// heavy cut, the other two are normal.
    pub fn weight(&self) -> (w: u16)
        ensures
            w == self.spec_weight(),
    {
        match self {
            IconFont::Solid => 900,
            _ => 400,
        }
    }

    /// The font weight as a specification value.
    pub open spec fn spec_weight(self) -> u16 {
        if self is Solid {
            900
        } else {
            400
        }
    }
}

/// Which family `select` chooses from `fonts` under `prefer_solid`:
/// when both the regular and the solid family carry the glyph the
/// preference decides; otherwise the first family listed is used.
pub open spec fn spec_select(fonts: Seq<IconFont>, prefer_solid: bool) -> IconFont
    recommends
        fonts.len() > 0,
{
    if fonts.contains(IconFont::Regular) && fonts.contains(IconFont::Solid) {
        if prefer_solid {
            IconFont::Solid
        } else {
            IconFont::Regular
        }
    } else {
        fonts[0]
    }
}

/// Whether `fonts` lists the family `f`.
pub fn contains_font(fonts: &Vec<IconFont>, f: IconFont) -> (r: bool)
    ensures
        r == fonts@.contains(f),
{
    let mut i: usize = 0;
    while i < fonts.len()
        invariant
            i <= fonts@.len(),
            forall|j: int| 0 <= j < i ==> fonts@[j] != f,
        decreases fonts@.len() - i,
    {
        if fonts[i] == f {
            return true;
        }
        i += 1;
    }
    false
}

/// Choose the family to draw a glyph with. When the glyph exists in both
/// the regular and the solid family, `prefer_solid` picks between them;
/// otherwise the first family in the glyph's declared order is used.
pub fn select(fonts: &Vec<IconFont>, prefer_solid: bool) -> (r: IconFont)
    requires
        fonts@.len() > 0,
    ensures
        r == spec_select(fonts@, prefer_solid),
{
    if contains_font(fonts, IconFont::Regular) && contains_font(fonts, IconFont::Solid) {
        if prefer_solid {
            IconFont::Solid
        } else {
            IconFont::Regular
        }
    } else {
        fonts[0]
    }
}

/// For a glyph carried by both the regular and the solid family, the
/// preference alone decides: `prefer_solid` yields the solid family and
/// its absence the regular one.
pub proof fn lemma_select_prefers(fonts: Seq<IconFont>)
    requires
        fonts.contains(IconFont::Regular),
        fonts.contains(IconFont::Solid),
    ensures
        spec_select(fonts, true) == IconFont::Solid,
        spec_select(fonts, false) == IconFont::Regular,
{
}

/// For a glyph carried by the brand family alone, selection returns the
/// brand family whatever the preference says.
pub proof fn lemma_select_brand_only(fonts: Seq<IconFont>, prefer_solid: bool)
    requires
        fonts.len() > 0,
        forall|j: int| 0 <= j < fonts.len() ==> fonts[j] == IconFont::Brand,
    ensures
        spec_select(fonts, prefer_solid) == IconFont::Brand,
{
    if fonts.contains(IconFont::Regular) {
        let j = choose|j: int| 0 <= j < fonts.len() && fonts[j] == IconFont::Regular;
        assert(fonts[j] == IconFont::Brand);
    }
}

} // verus!
