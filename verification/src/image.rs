//! A standalone serializable payload shape: a square grid of pixel records
//! with a redundant size field. A value type with no identity beyond its
//! contents; nothing else in the core refers to it.

use vstd::prelude::*;

verus! {

/// One pixel of the payload grid: four 32-bit channels, stored as the raw
/// bit patterns of the channel values.
#[derive(Clone, Copy, Debug, PartialEq, Eq, Structural)]
pub struct Pixel {
    pub r: u32,
    pub g: u32,
    pub b: u32,
    pub a: u32,
}

/// The fixed side length of the grid.
pub const IMAGE_SIZE: usize = 1024;

/// A square grid of `IMAGE_SIZE` × `IMAGE_SIZE` pixels in row-major order,
/// with the redundant side length stored alongside the contents.
pub struct Image1024 {
    size: usize,
    pixels: Vec<Pixel>,
}

impl Image1024 {
    /// The grid in row-major order.
    pub closed spec fn grid(self) -> Seq<Pixel> {
        self.pixels@
    }

    /// Well-formedness: the stored size is the fixed side length and the
    /// contents fill the square exactly.
    pub closed spec fn wf(self) -> bool {
        &&& self.size == IMAGE_SIZE
        &&& self.pixels@.len() == IMAGE_SIZE * IMAGE_SIZE
    }

    /// Builds the grid filled with one pixel value.
    pub fn new(fill: Pixel) -> (img: Image1024)
        ensures
            img.wf(),
            img.grid() == Seq::new((IMAGE_SIZE * IMAGE_SIZE) as nat, |i: int| fill),
    {
        let total: usize = IMAGE_SIZE * IMAGE_SIZE;
        let mut pixels: Vec<Pixel> = Vec::new();
        let mut i: usize = 0;
        while i < total
            invariant
                i <= total,
                pixels@ == Seq::new(i as nat, |j: int| fill),
            decreases total - i,
        {
            pixels.push(fill);
            proof {
                assert(pixels@ =~= Seq::new((i + 1) as nat, |j: int| fill));
            }
            i = i + 1;
        }
        Image1024 { size: IMAGE_SIZE, pixels }
    }

    /// The stored side length.
    pub fn size(&self) -> (s: usize)
        requires
            self.wf(),
        ensures
            s == IMAGE_SIZE,
    {
        self.size
    }

    /// The pixel at the given row and column.
    pub fn pixel(&self, row: usize, col: usize) -> (p: Pixel)
        requires
            self.wf(),
            row < IMAGE_SIZE,
            col < IMAGE_SIZE,
        ensures
            p == self.grid()[row * IMAGE_SIZE + col],
    {
        proof {
            assert(row * IMAGE_SIZE + col < IMAGE_SIZE * IMAGE_SIZE) by (nonlinear_arith)
                requires
                    row < IMAGE_SIZE,
                    col < IMAGE_SIZE,
            ;
        }
        self.pixels[row * IMAGE_SIZE + col]
    }
}

} // verus!
