use vstd::prelude::*;

verus! {

/// A size in layout units. An unbounded extent is written `u32::MAX`.
#[derive(Clone, Copy, Debug, PartialEq, Eq, Structural)]
pub struct Size {
    /// The horizontal extent.
    pub width: u32,
    /// The vertical extent.
    pub height: u32,
}

impl Size {
    /// A square of the given side.
    pub fn all(side: u32) -> (s: Size)
        ensures
            s == (Size { width: side, height: side }),
    {
        Size { width: side, height: side }
    }
}

/// The value `v` clamped into `[lo, hi]`: the minimum wins over the
/// natural value, the maximum wins below it.
pub open spec fn spec_clamp(v: u32, lo: u32, hi: u32) -> u32
    recommends
        lo <= hi,
{
    if v < lo {
        lo
    } else if v > hi {
        hi
    } else {
        v
    }
}

/// The space a parent offers during size negotiation: a per-axis range of
/// acceptable sizes. A maximum of `u32::MAX` stands for an unbounded axis.
#[derive(Clone, Copy, Debug, PartialEq, Eq, Structural)]
pub struct Space {
    /// The smallest acceptable size.
    pub min: Size,
    /// The largest acceptable size.
    pub max: Size,
}

impl Space {
    /// A well-formed space never demands more than it allows.
    pub open spec fn wf(self) -> bool {
        self.min.width <= self.max.width && self.min.height <= self.max.height
    }

    /// The space that accepts any size at all.
    pub fn unbounded() -> (s: Space)
        ensures
            s.wf(),
            s.min == (Size { width: 0u32, height: 0u32 }),
            s.max == (Size { width: u32::MAX, height: u32::MAX }),
    {
        Space {
            min: Size { width: 0, height: 0 },
            max: Size { width: u32::MAX, height: u32::MAX },
        }
    }

    /// The space that accepts exactly one size.
    pub fn exact(size: Size) -> (s: Space)
        ensures
            s.wf(),
            s.min == size,
            s.max == size,
    {
        Space { min: size, max: size }
    }

    /// What fitting `size` into this space yields, per axis: the size
    /// itself where it lies inside the range, else the nearer bound.
    pub open spec fn spec_fit(self, size: Size) -> Size
        recommends
            self.wf(),
    {
        Size {
            width: spec_clamp(size.width, self.min.width, self.max.width),
            height: spec_clamp(size.height, self.min.height, self.max.height),
        }
    }

    /// Clamp a natural size into this space: where the minimum exceeds it
    /// the minimum wins, where the maximum falls below it the maximum wins.
    pub fn fit(&self, size: Size) -> (r: Size)
        requires
            self.wf(),
        ensures
            r == self.spec_fit(size),
    {
        let width: u32 = if size.width < self.min.width {
            self.min.width
        } else if size.width > self.max.width {
            self.max.width
        } else {
            size.width
        };
        let height: u32 = if size.height < self.min.height {
            self.min.height
        } else if size.height > self.max.height {
            self.max.height
        } else {
            size.height
        };
        Size { width, height }
    }
}

/// In an unconstrained space, size negotiation yields the natural size
/// unchanged: a square of side exactly the resolved size, whatever that
/// size is.
pub proof fn lemma_fit_unbounded(side: u32, space: Space)
    requires
        space.min == (Size { width: 0u32, height: 0u32 }),
        space.max == (Size { width: u32::MAX, height: u32::MAX }),
    ensures
        space.spec_fit(Size { width: side, height: side }) == (Size {
            width: side,
            height: side,
        }),
{
}

/// In an exact space, the constraint wins outright: whatever the natural
/// size, negotiation yields the one size the space accepts.
pub proof fn lemma_fit_exact(side: u32, natural: u32, space: Space)
    requires
        space.min == (Size { width: side, height: side }),
        space.max == space.min,
    ensures
        space.spec_fit(Size { width: natural, height: natural }) == (Size {
            width: side,
            height: side,
        }),
{
}

/// Half the signed difference of two extents, rounded toward zero: the
/// per-axis offset that centers a run of extent `inner` in a box of
/// extent `outer`.
pub open spec fn spec_center_offset(outer: u32, inner: u32) -> int {
    if outer >= inner {
        (outer - inner) / 2
    } else {
        -((inner - outer) / 2)
    }
}

/// The per-axis offset at which a measured run is drawn inside the box the
/// instance was laid out at, so that the run sits centered.
pub fn center_offset(outer: u32, inner: u32) -> (r: i64)
    ensures
        r == spec_center_offset(outer, inner),
{
    if outer >= inner {
        ((outer - inner) / 2) as i64
    } else {
        -(((inner - outer) / 2) as i64)
    }
}

} // verus!
