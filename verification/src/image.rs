//! Pixel lookup in a decoded image texture.

use vstd::prelude::*;

verus! {

/// A decoded image used as a texture.
///
/// The renderer's loader decodes an image file into a flat RGB byte buffer,
/// three bytes per pixel, rows top first; this type owns that buffer and the
/// bounds-checked pixel lookup. Mapping surface coordinates onto a pixel
/// column and row is floating point and stays with the renderer, as does the
/// debug colour painted when no data could be decoded.
pub struct ImageTexture {
    data: Vec<u8>,
    width: usize,
    height: usize,
}

impl ImageTexture {
    #[verifier::type_invariant]
    spec fn wf(self) -> bool {
        self.data@.len() == 3 * self.width * self.height
    }

    /// Number of pixel columns.
    pub closed spec fn spec_width(self) -> int {
        self.width as int
    }

    /// Number of pixel rows.
    pub closed spec fn spec_height(self) -> int {
        self.height as int
    }

    /// The decoded RGB bytes.
    pub closed spec fn bytes(self) -> Seq<u8> {
        self.data@
    }

    /// Wrap a decoded RGB buffer of the given dimensions.
    pub fn from_rgb_bytes(data: Vec<u8>, width: usize, height: usize) -> (r: ImageTexture)
        requires
            data@.len() == 3 * width * height,
        ensures
            r.spec_width() == width,
            r.spec_height() == height,
            r.bytes() == data@,
    {
        ImageTexture { data, width, height }
    }

    /// A texture with no pixel data, standing in when decoding failed.
    pub fn empty() -> (r: ImageTexture)
        ensures
            r.spec_width() == 0,
            r.spec_height() == 0,
            r.bytes().len() == 0,
    {
        ImageTexture { data: Vec::new(), width: 0, height: 0 }
    }

    pub fn width(&self) -> (r: usize)
        ensures
            r == self.spec_width(),
    {
        self.width
    }

    pub fn height(&self) -> (r: usize)
        ensures
            r == self.spec_height(),
    {
        self.height
    }

    /// Whether any pixel data was decoded.
    pub fn has_data(&self) -> (r: bool)
        ensures
            r == (self.bytes().len() > 0),
    {
        self.data.len() > 0
    }

    /// The RGB bytes of the pixel in column `i` of row `j`, row 0 at the top
    /// of the image.
    pub fn pixel(&self, i: usize, j: usize) -> (rgb: (u8, u8, u8))
        requires
            i < self.spec_width(),
            j < self.spec_height(),
        ensures
            ({
                let base = 3 * (i + self.spec_width() * j);
                &&& rgb.0 == self.bytes()[base]
                &&& rgb.1 == self.bytes()[base + 1]
                &&& rgb.2 == self.bytes()[base + 2]
            }),
    {
        let n = self.data.len();
        proof {
            use_type_invariant(self);
            assert(0 <= self.width * j && 3 * (i + self.width * j) + 2 < 3 * self.width
                * self.height) by (nonlinear_arith)
                requires
                    i < self.width,
                    j < self.height,
            ;
            assert(3 * (i + self.width * j) + 2 < n);
        }
        let idx = 3 * (i + self.width * j);
        (self.data[idx], self.data[idx + 1], self.data[idx + 2])
    }
}

} // verus!
