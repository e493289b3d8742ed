use vstd::prelude::*;

use crate::font::IconFont;

verus! {

/// A glyph resolved from the registry: its codepoint and the non-empty,
/// ordered set of font families that carry it.
#[derive(Clone, Debug)]
pub struct IconCode {
    /// The character the icon font draws the glyph at.
    pub codepoint: char,
    /// The families that carry the glyph, in their declared order.
    pub fonts: Vec<IconFont>,
}

impl IconCode {
    /// A glyph descriptor always names at least one family.
    pub open spec fn wf(self) -> bool {
        self.fonts@.len() > 0
    }
}

/// The error for an icon identifier the registry does not know.
#[derive(Clone, Copy, Debug, PartialEq, Eq, Structural)]
pub struct InvalidGlyph;

/// The registry table: what `lookup` yields for each supported identifier,
/// as codepoint and family order, and `None` for every other identifier.
pub open spec fn spec_lookup(name: Seq<char>) -> Option<(char, Seq<IconFont>)> {
    if name == "bug"@ {
        Some(('\u{f188}', seq![IconFont::Regular, IconFont::Solid]))
    } else if name == "heart"@ {
        Some(('\u{f004}', seq![IconFont::Regular, IconFont::Solid]))
    } else if name == "repeat"@ {
        Some(('\u{f363}', seq![IconFont::Solid]))
    } else if name == "check"@ {
        Some(('\u{f00c}', seq![IconFont::Solid]))
    } else if name == "font-awesome"@ {
        Some(('\u{f2b4}', seq![IconFont::Brand]))
    } else if name == "github"@ {
        Some(('\u{f09b}', seq![IconFont::Brand]))
    } else {
        None
    }
}

/// The registry entry for a supported identifier.
pub open spec fn spec_glyph(name: Seq<char>) -> (char, Seq<IconFont>)
    recommends
        spec_lookup(name) is Some,
{
    spec_lookup(name)->0
}

/// Whether two string slices hold the same characters.
pub fn str_eq(a: &str, b: &str) -> (r: bool)
    ensures
        r == (a@ == b@),
{
    let alen = a.unicode_len();
    let blen = b.unicode_len();
    if alen != blen {
        return false;
    }
    let mut i: usize = 0;
    while i < alen
        invariant
            alen == a@.len(),
            blen == b@.len(),
            alen == blen,
            i <= alen,
            forall|j: int| 0 <= j < i ==> a@[j] == b@[j],
        decreases alen - i,
    {
        if a.get_char(i) != b.get_char(i) {
            return false;
        }
        i += 1;
    }
    proof {
        assert(a@ =~= b@);
    }
    true
}

/// Resolve a symbolic icon identifier through the registry. A supported
/// identifier yields its glyph descriptor; an unsupported one fails with
/// `InvalidGlyph` before any view is built.
pub fn lookup(name: &str) -> (r: Result<IconCode, InvalidGlyph>)
    ensures
        match r {
            Ok(code) => {
                &&& spec_lookup(name@) is Some
                &&& code.codepoint == spec_glyph(name@).0
                &&& code.fonts@ == spec_glyph(name@).1
                &&& code.wf()
            },
            Err(_) => spec_lookup(name@) is None,
        },
{
    if str_eq(name, "bug") {
        let mut fonts: Vec<IconFont> = Vec::new();
        fonts.push(IconFont::Regular);
        fonts.push(IconFont::Solid);
        proof {
            assert(fonts@ =~= seq![IconFont::Regular, IconFont::Solid]);
        }
        Ok(IconCode { codepoint: '\u{f188}', fonts })
    } else if str_eq(name, "heart") {
        let mut fonts: Vec<IconFont> = Vec::new();
        fonts.push(IconFont::Regular);
        fonts.push(IconFont::Solid);
        proof {
            assert(fonts@ =~= seq![IconFont::Regular, IconFont::Solid]);
        }
        Ok(IconCode { codepoint: '\u{f004}', fonts })
    } else if str_eq(name, "repeat") {
        let mut fonts: Vec<IconFont> = Vec::new();
        fonts.push(IconFont::Solid);
        proof {
            assert(fonts@ =~= seq![IconFont::Solid]);
        }
        Ok(IconCode { codepoint: '\u{f363}', fonts })
    } else if str_eq(name, "check") {
        let mut fonts: Vec<IconFont> = Vec::new();
        fonts.push(IconFont::Solid);
        proof {
            assert(fonts@ =~= seq![IconFont::Solid]);
        }
        Ok(IconCode { codepoint: '\u{f00c}', fonts })
    } else if str_eq(name, "font-awesome") {
        let mut fonts: Vec<IconFont> = Vec::new();
        fonts.push(IconFont::Brand);
        proof {
            assert(fonts@ =~= seq![IconFont::Brand]);
        }
        Ok(IconCode { codepoint: '\u{f2b4}', fonts })
    } else if str_eq(name, "github") {
        let mut fonts: Vec<IconFont> = Vec::new();
        fonts.push(IconFont::Brand);
        proof {
            assert(fonts@ =~= seq![IconFont::Brand]);
        }
        Ok(IconCode { codepoint: '\u{f09b}', fonts })
    } else {
        Err(InvalidGlyph)
    }
}

/// Every glyph the registry yields is well-formed: its family list is
/// never empty.
pub proof fn lemma_lookup_wf(name: Seq<char>)
    requires
        spec_lookup(name) is Some,
    ensures
        spec_glyph(name).1.len() > 0,
{
}

} // verus!
