//! Image extents and the regions of a full-image transfer.

use vstd::prelude::*;

verus! {

/// Width and height of an image, in pixels.
#[derive(Clone, Copy, Debug, PartialEq, Eq, Structural)]
pub struct Extent {
    pub width: u32,
    pub height: u32,
}

/// An axis-aligned rectangle inside an image.
#[derive(Clone, Copy, Debug, PartialEq, Eq, Structural)]
pub struct Rect {
    pub x: u32,
    pub y: u32,
    pub width: u32,
    pub height: u32,
}

/// Source and destination rectangle of one image transfer.
#[derive(Clone, Copy, Debug, PartialEq, Eq, Structural)]
pub struct Transfer {
    pub source: Rect,
    pub destination: Rect,
    /// Whether pixels are resampled, which is the case exactly when the two
    /// rectangles differ in size.
    pub scaled: bool,
}

impl Extent {
    /// The rectangle that covers an image of this extent completely.
    pub open spec fn whole(self) -> Rect {
        Rect { x: 0, y: 0, width: self.width, height: self.height }
    }

    /// An extent without pixels.
    pub open spec fn empty(self) -> bool {
        self.width == 0 || self.height == 0
    }

    /// Two extents have the same aspect ratio when their cross products agree.
    pub open spec fn same_aspect(self, other: Extent) -> bool {
        self.width * other.height == other.width * self.height
    }

    pub fn new(width: u32, height: u32) -> (e: Extent)
        ensures
            e == (Extent { width, height }),
    {
        Extent { width, height }
    }

    pub fn full_rect(&self) -> (r: Rect)
        ensures
            r == self.whole(),
    {
        Rect { x: 0, y: 0, width: self.width, height: self.height }
    }

    pub fn is_empty(&self) -> (b: bool)
        ensures
            b == self.empty(),
    {
        self.width == 0 || self.height == 0
    }

    pub fn has_same_aspect(&self, other: &Extent) -> (b: bool)
        ensures
            b == self.same_aspect(*other),
    {
        proof {
            lemma_product_fits(self.width, other.height);
            lemma_product_fits(other.width, self.height);
        }
        let left: u64 = (self.width as u64) * (other.height as u64);
        let right: u64 = (other.width as u64) * (self.height as u64);
        left == right
    }
}

proof fn lemma_product_fits(a: u32, b: u32)
    ensures
        0 <= a * b <= u64::MAX,
{
    assert(0 <= a * b <= 0xffff_ffff * 0xffff_ffff) by (nonlinear_arith)
        requires
            0 <= a <= 0xffff_ffff,
            0 <= b <= 0xffff_ffff,
    ;
}

/// The transfer that stretches all of `source` over all of `destination`.
pub open spec fn stretch(source: Extent, destination: Extent) -> Transfer {
    Transfer {
        source: source.whole(),
        destination: destination.whole(),
        scaled: source != destination,
    }
}

/// Plans the transfer of a whole source image onto a whole destination image.
///
/// The destination is always filled edge to edge: where the aspect ratios
/// differ the picture is stretched, never letterboxed or cropped.
pub fn full_transfer(source: Extent, destination: Extent) -> (t: Transfer)
    ensures
        t == stretch(source, destination),
        t.destination == destination.whole(),
{
    Transfer {
        source: source.full_rect(),
        destination: destination.full_rect(),
        scaled: source.width != destination.width || source.height != destination.height,
    }
}

} // verus!
