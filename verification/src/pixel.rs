//! Colours and pixel buffers.

use vstd::prelude::*;

verus! {

/// A colour with eight bits per channel.
#[derive(Clone, Copy, Debug, PartialEq, Eq, Structural)]
pub struct Rgb {
    pub r: u8,
    pub g: u8,
    pub b: u8,
}

/// Largest width and height of a pixel buffer.
pub const MAX_DIMENSION: usize = 0x7fff_ffff;

/// A frame of RGB pixels, row by row from the top, three bytes per pixel.
pub struct PixelBuffer {
    width: usize,
    height: usize,
    data: Vec<u8>,
}

/// Whether `len` bytes are the pixels of a frame of the given width and
/// height.
pub open spec fn fits_frame(width: int, height: int, len: int) -> bool {
    &&& 0 <= width <= MAX_DIMENSION
    &&& 0 <= height <= MAX_DIMENSION
    &&& len == 3 * (width * height)
}

/// Offset of the first byte of the pixel in column `x` of row `y`.
pub open spec fn pixel_offset(width: int, x: int, y: int) -> int {
    3 * (y * width + x)
}

/// The pixel that starts at `offset` in `bytes`.
pub open spec fn pixel_at(bytes: Seq<u8>, offset: int) -> Rgb {
    Rgb { r: bytes[offset], g: bytes[offset + 1], b: bytes[offset + 2] }
}

/// Every pixel of a frame lies within its bytes.
pub proof fn lemma_pixel_in_bounds(width: int, height: int, x: int, y: int)
    requires
        0 <= x < width,
        0 <= y < height,
    ensures
        0 <= pixel_offset(width, x, y),
        pixel_offset(width, x, y) + 3 <= 3 * (width * height),
{
    assert(y * width + x + 1 <= width * height) by (nonlinear_arith)
        requires
            0 <= x < width,
            0 <= y < height,
    ;
    assert(0 <= y * width) by (nonlinear_arith)
        requires
            0 <= y,
            0 <= width,
    ;
}

impl PixelBuffer {
    #[verifier::type_invariant]
    spec fn inv(self) -> bool {
        self.wf()
    }

    /// The bytes are those of a frame of the buffer's width and height.
    pub closed spec fn wf(self) -> bool {
        fits_frame(self.width as int, self.height as int, self.data@.len() as int)
    }

    /// Number of pixels in a row.
    pub closed spec fn cols(self) -> nat {
        self.width as nat
    }

    /// Number of rows.
    pub closed spec fn rows(self) -> nat {
        self.height as nat
    }

    /// The bytes of the frame.
    pub closed spec fn bytes(self) -> Seq<u8> {
        self.data@
    }

    /// The pixel in column `x` of row `y`.
    pub open spec fn pixel(self, x: int, y: int) -> Rgb {
        pixel_at(self.bytes(), pixel_offset(self.cols() as int, x, y))
    }

    /// The frame holds no pixel.
    pub open spec fn is_blank(self) -> bool {
        self.cols() == 0 || self.rows() == 0
    }

    /// The frame of the given size over `data`, if `data` is of that size:
    /// three bytes for each pixel, and neither side above
    /// [`MAX_DIMENSION`].
    pub fn new(width: usize, height: usize, data: Vec<u8>) -> (r: Option<PixelBuffer>)
        ensures
            r is Some <==> fits_frame(width as int, height as int, data@.len() as int),
            r matches Some(b) ==> b.wf() && b.cols() == width && b.rows() == height && b.bytes()
                == data@,
    {
        if width > MAX_DIMENSION || height > MAX_DIMENSION {
            return None;
        }
        assert(0 <= width * height <= 0x7fff_ffff * 0x7fff_ffff) by (nonlinear_arith)
            requires
                0 <= width <= 0x7fff_ffff,
                0 <= height <= 0x7fff_ffff,
        ;
        let expected: u64 = 3 * ((width as u64) * (height as u64));
        if data.len() as u64 != expected {
            return None;
        }
        Some(PixelBuffer { width, height, data })
    }

    /// The frame without pixels.
    pub fn empty() -> (b: PixelBuffer)
        ensures
            b.wf(),
            b.cols() == 0,
            b.rows() == 0,
            b.is_blank(),
    {
        assert(0 * 0 == 0) by (nonlinear_arith);
        PixelBuffer { width: 0, height: 0, data: Vec::new() }
    }

    /// Number of pixels in a row.
    pub fn width(&self) -> (w: usize)
        ensures
            w == self.cols(),
            w <= MAX_DIMENSION,
            self.wf(),
    {
        proof {
            use_type_invariant(self);
        }
        self.width
    }

    /// Number of rows.
    pub fn height(&self) -> (h: usize)
        ensures
            h == self.rows(),
            h <= MAX_DIMENSION,
            self.wf(),
    {
        proof {
            use_type_invariant(self);
        }
        self.height
    }

    /// Whether the frame holds no pixel.
    pub fn is_empty(&self) -> (e: bool)
        ensures
            e == self.is_blank(),
    {
        self.width == 0 || self.height == 0
    }

    /// The pixel in column `x` of row `y`.
    pub fn get(&self, x: usize, y: usize) -> (p: Rgb)
        requires
            x < self.cols(),
            y < self.rows(),
        ensures
            p == self.pixel(x as int, y as int),
    {
        proof {
            use_type_invariant(self);
            lemma_pixel_in_bounds(self.width as int, self.height as int, x as int, y as int);
        }
        let len: usize = self.data.len();
        assert(pixel_offset(self.width as int, x as int, y as int) + 3 <= len);
        let k: usize = 3 * (y * self.width + x);
        Rgb { r: self.data[k], g: self.data[k + 1], b: self.data[k + 2] }
    }
}

} // verus!
