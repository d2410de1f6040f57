//! The image's pixel grid: its size, derived from a width and an aspect
//! ratio, and the row-major order in which its pixels are visited.
use vstd::prelude::*;

verus! {

/// An aspect ratio `horizontal : vertical`, held exactly as two integers.
#[derive(Clone, Copy, Debug, PartialEq, Eq, Structural)]
pub struct AspectRatio {
    pub horizontal: u32,
    pub vertical: u32,
}

impl AspectRatio {
    pub open spec fn wf(&self) -> bool {
        self.horizontal >= 1 && self.vertical >= 1
    }
}

/// The pixel height that goes with `width` at aspect ratio
/// `horizontal : vertical`: `width / ratio` rounded to the nearest integer
/// (halves round up), and never less than one row.
pub open spec fn derived_height(width: nat, horizontal: nat, vertical: nat) -> nat
    recommends
        horizontal >= 1,
{
    let rounded = (2 * width * vertical + horizontal) / (2 * horizontal);
    if rounded < 1 {
        1
    } else {
        rounded
    }
}

/// The size of the rendered image, in pixels.
#[derive(Clone, Copy, Debug, PartialEq, Eq, Structural)]
pub struct ImageSize {
    pub width: u32,
    pub height: u32,
}

impl ImageSize {
    /// Number of pixels in the image.
    pub open spec fn count(&self) -> nat {
        self.width as nat * self.height as nat
    }

    /// The size with the given width and the height derived from `aspect`;
    /// `None` exactly when that height does not fit in a `u32`.
    pub fn from_aspect(width: u32, aspect: AspectRatio) -> (r: Option<ImageSize>)
        requires
            aspect.wf(),
        ensures
            r.is_some() <==> derived_height(
                width as nat,
                aspect.horizontal as nat,
                aspect.vertical as nat,
            ) <= u32::MAX,
            r matches Some(s) ==> s.width == width && s.height == derived_height(
                width as nat,
                aspect.horizontal as nat,
                aspect.vertical as nat,
            ),
    {
        let w = width as u128;
        let num = aspect.horizontal as u128;
        let den = aspect.vertical as u128;
        assert(2 * w * den + num <= 0x4_0000_0000_0000_0000) by (nonlinear_arith)
            requires
                w <= u32::MAX,
                den <= u32::MAX,
                num <= u32::MAX,
        ;
        let rounded = (2 * w * den + num) / (2 * num);
        let height = if rounded < 1 {
            1
        } else {
            rounded
        };
        if height > u32::MAX as u128 {
            None
        } else {
            Some(ImageSize { width, height: height as u32 })
        }
    }

    /// Number of pixels in the image, `width * height`.
    pub fn pixel_count(&self) -> (r: u64)
        ensures
            r == self.count(),
    {
        assert(self.width as nat * self.height as nat <= u64::MAX) by (nonlinear_arith)
            requires
                self.width <= u32::MAX,
                self.height <= u32::MAX,
        ;
        self.width as u64 * self.height as u64
    }

    /// The pixel `(column, row)` visited at position `index` when the rows
    /// are taken top to bottom and each row left to right.
    pub fn pixel_at(&self, index: u64) -> (r: (u32, u32))
        requires
            index < self.count(),
        ensures
            r.0 < self.width,
            r.1 < self.height,
            index == r.1 as nat * self.width as nat + r.0 as nat,
    {
        let w = self.width as u64;
        assert(w > 0) by (nonlinear_arith)
            requires
                w == self.width,
                index < self.width as nat * self.height as nat,
        ;
        let col = index % w;
        let row = index / w;
        assert(row < self.height) by (nonlinear_arith)
            requires
                w > 0,
                row == index / w,
                index < w * self.height,
        ;
        assert(index == row * w + col) by (nonlinear_arith)
            requires
                w > 0,
                row == index / w,
                col == index % w,
        ;
        (col as u32, row as u32)
    }
}

} // verus!
