//! Images as grids of pixels.

use vstd::prelude::*;

verus! {

/// A grid of pixels, `width` across and `height` down. The pixel at column
/// `x` and row `y` is addressed by `(x, y)`, with `x` below the width and
/// `y` below the height; the pixels are kept row by row.
#[derive(Debug, PartialEq, Eq)]
pub struct Raster<P> {
    width: u32,
    height: u32,
    pixels: Vec<P>,
}

/// A grid of pixels as a value: its dimensions and its pixels row by row.
pub struct RasterView<P> {
    pub width: nat,
    pub height: nat,
    pub pixels: Seq<P>,
}

impl<P> RasterView<P> {
    /// There is one pixel for each position of the grid.
    pub open spec fn well_formed(self) -> bool {
        self.pixels.len() == self.width * self.height
    }

    /// Whether `(x, y)` is a position of the grid.
    pub open spec fn has(self, x: int, y: int) -> bool {
        0 <= x < self.width && 0 <= y < self.height
    }

    /// The pixel at `(x, y)`.
    pub open spec fn at(self, x: int, y: int) -> P {
        self.pixels[y * self.width + x]
    }
}

impl<P> View for Raster<P> {
    type V = RasterView<P>;

    closed spec fn view(&self) -> RasterView<P> {
        RasterView { width: self.width as nat, height: self.height as nat, pixels: self.pixels@ }
    }
}

/// A position inside a grid has its place among the grid's pixels.
pub proof fn lemma_position_index(width: int, height: int, x: int, y: int)
    requires
        0 <= x < width,
        0 <= y < height,
    ensures
        0 <= y * width + x < width * height,
{
    assert(y * width + x < width * height) by (nonlinear_arith)
        requires
            0 <= x < width,
            0 <= y < height,
    ;
    assert(0 <= y * width + x) by (nonlinear_arith)
        requires
            0 <= x < width,
            0 <= y < height,
    ;
}

impl<P> Raster<P> {
    #[verifier::type_invariant]
    spec fn one_pixel_per_position(&self) -> bool {
        self.pixels@.len() == self.width * self.height
    }

    /// The grid of the given width and height that holds the given pixels,
    /// row by row. There is none unless there is exactly one pixel for each
    /// position.
    pub fn new(width: u32, height: u32, pixels: Vec<P>) -> (raster: Option<Self>)
        ensures
            raster is Some <==> pixels@.len() == width * height,
            raster matches Some(r) ==> r@.width == width && r@.height == height && r@.pixels
                == pixels@ && r@.well_formed(),
    {
        assert(width * height <= 0xFFFF_FFFE_0000_0001) by (nonlinear_arith)
            requires
                width <= 0xFFFF_FFFF,
                height <= 0xFFFF_FFFF,
        ;
        let positions: u64 = (width as u64) * (height as u64);
        if pixels.len() as u64 == positions {
            Some(Raster { width, height, pixels })
        } else {
            None
        }
    }

    /// The grid of the given width and height that holds the given pixels,
    /// of which there is one for each position.
    pub(crate) fn filled(width: u32, height: u32, pixels: Vec<P>) -> (raster: Self)
        requires
            pixels@.len() == width * height,
        ensures
            raster@.width == width,
            raster@.height == height,
            raster@.pixels == pixels@,
            raster@.well_formed(),
    {
        Raster { width, height, pixels }
    }

    /// The number of columns.
    pub fn width(&self) -> (width: u32)
        ensures
            width == self@.width,
            self@.well_formed(),
    {
        proof {
            use_type_invariant(self);
        }
        self.width
    }

    /// The number of rows.
    pub fn height(&self) -> (height: u32)
        ensures
            height == self@.height,
            self@.well_formed(),
    {
        proof {
            use_type_invariant(self);
        }
        self.height
    }

    /// The pixels, row by row.
    pub fn pixels(&self) -> (pixels: &Vec<P>)
        ensures
            pixels@ == self@.pixels,
            self@.well_formed(),
    {
        proof {
            use_type_invariant(self);
        }
        &self.pixels
    }

    /// The pixel at `(x, y)`, if that is a position of the grid.
    pub fn get(&self, x: u32, y: u32) -> (pixel: Option<&P>)
        ensures
            pixel is Some <==> self@.has(x as int, y as int),
            pixel matches Some(p) ==> *p == self@.at(x as int, y as int),
    {
        proof {
            use_type_invariant(self);
        }
        if x < self.width && y < self.height {
            proof {
                lemma_position_index(self.width as int, self.height as int, x as int, y as int);
                assert(0 <= y * self.width) by (nonlinear_arith)
                    requires
                        0 <= y,
                        0 <= self.width,
                ;
                assert(y * self.width + x < self.pixels.len());
            }
            let index: usize = (y as usize) * (self.width as usize) + (x as usize);
            Some(&self.pixels[index])
        } else {
            None
        }
    }
}

} // verus!
