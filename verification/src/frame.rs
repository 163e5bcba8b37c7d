use vstd::prelude::*;

verus! {

/// One pixel: red, green, blue and alpha, a byte each.
#[derive(Clone, Copy, Debug, PartialEq, Eq, Structural)]
pub struct Rgba8 {
    pub red: u8,
    pub green: u8,
    pub blue: u8,
    pub alpha: u8,
}

/// What a frame is, as mathematics: its dimensions and its samples, four for
/// each pixel, row by row from the top.
pub struct Raster {
    pub width: nat,
    pub height: nat,
    pub samples: Seq<u8>,
}

impl Raster {
    /// Both dimensions are positive and every pixel has its four samples.
    pub open spec fn well_formed(self) -> bool {
        &&& self.width > 0
        &&& self.height > 0
        &&& self.samples.len() == 4 * self.width * self.height
    }

    /// Whether column `x` of row `y` lies inside the raster.
    pub open spec fn holds(self, x: int, y: int) -> bool {
        0 <= x < self.width && 0 <= y < self.height
    }

    /// Where the samples of the pixel in column `x` of row `y` begin.
    pub open spec fn offset(self, x: int, y: int) -> int {
        4 * (y * self.width + x)
    }

    /// The pixel in column `x` of row `y`.
    pub open spec fn pixel(self, x: int, y: int) -> Rgba8 {
        let at = self.offset(x, y);
        Rgba8 {
            red: self.samples[at],
            green: self.samples[at + 1],
            blue: self.samples[at + 2],
            alpha: self.samples[at + 3],
        }
    }
}

/// The four samples of every pixel inside a well-formed raster lie inside
/// its buffer, at four times the pixel's place in row-major order.
pub proof fn lemma_offset_in_bounds(raster: Raster, x: int, y: int)
    requires
        raster.well_formed(),
        raster.holds(x, y),
    ensures
        0 <= raster.offset(x, y),
        raster.offset(x, y) + 4 <= raster.samples.len(),
        raster.offset(x, y) / 4 == y * raster.width + x,
{
    let w = raster.width as int;
    let h = raster.height as int;
    assert(y * w + x < h * w && 0 <= y * w) by (nonlinear_arith)
        requires
            0 <= x < w,
            0 <= y < h,
    ;
    assert(4 * (h * w) == 4 * raster.width * raster.height) by (nonlinear_arith)
        requires
            w == raster.width,
            h == raster.height,
    ;
}

/// A decoded frame: an owned RGBA8 raster that does not change once it is made.
#[derive(Debug)]
pub struct Frame {
    width: u32,
    height: u32,
    samples: Vec<u8>,
}

impl View for Frame {
    type V = Raster;

    closed spec fn view(&self) -> Raster {
        Raster {
            width: self.width as nat,
            height: self.height as nat,
            samples: self.samples@,
        }
    }
}

impl Frame {
    #[verifier::type_invariant]
    spec fn lawful(self) -> bool {
        self@.well_formed()
    }

    /// Makes a frame of `samples`, if they are the RGBA8 samples of a raster
    /// of `width` by `height` pixels, both positive.
    pub fn from_raw(width: u32, height: u32, samples: Vec<u8>) -> (frame: Option<Frame>)
        ensures
            frame is Some <==> (Raster {
                width: width as nat,
                height: height as nat,
                samples: samples@,
            }).well_formed(),
            frame matches Some(made) ==> made@ == (Raster {
                width: width as nat,
                height: height as nat,
                samples: samples@,
            }),
    {
        if width == 0 || height == 0 {
            return None;
        }
        assert(width * height <= u64::MAX && 4 * width * height == 4 * (width * height))
            by (nonlinear_arith)
            requires
                width <= u32::MAX,
                height <= u32::MAX,
        ;
        let pixels: u64 = (width as u64) * (height as u64);
        let length: usize = samples.len();
        if length % 4 != 0 || (length / 4) as u64 != pixels {
            return None;
        }
        Some(Frame { width, height, samples })
    }

    /// The number of pixels in a row.
    pub fn width(&self) -> (width: u32)
        ensures
            width == self@.width,
            self@.well_formed(),
    {
        proof {
            use_type_invariant(self);
        }
        self.width
    }

    /// The number of rows.
    pub fn height(&self) -> (height: u32)
        ensures
            height == self@.height,
            self@.well_formed(),
    {
        proof {
            use_type_invariant(self);
        }
        self.height
    }

    /// The samples, four for each pixel, row by row from the top.
    pub fn as_raw(&self) -> (samples: &Vec<u8>)
        ensures
            samples@ == self@.samples,
            self@.well_formed(),
    {
        proof {
            use_type_invariant(self);
        }
        &self.samples
    }

    /// The pixel in column `x` of row `y`, if the frame has one there.
    pub fn pixel(&self, x: u32, y: u32) -> (pixel: Option<Rgba8>)
        ensures
            pixel == if self@.holds(x as int, y as int) {
                Some(self@.pixel(x as int, y as int))
            } else {
                None
            },
    {
        proof {
            use_type_invariant(self);
        }
        if x >= self.width || y >= self.height {
            return None;
        }
        proof {
            lemma_offset_in_bounds(self@, x as int, y as int);
            assert(self.samples@.len() == self.samples.len() <= usize::MAX);
        }
        let at: usize = (4 * ((y as u64) * (self.width as u64) + (x as u64))) as usize;
        Some(
            Rgba8 {
                red: self.samples[at],
                green: self.samples[at + 1],
                blue: self.samples[at + 2],
                alpha: self.samples[at + 3],
            },
        )
    }
}

impl Clone for Frame {
    /// A second frame with the same dimensions and the same samples.
    fn clone(&self) -> (copy: Self)
        ensures
            copy@ == self@,
    {
        proof {
            use_type_invariant(self);
        }
        let samples = self.samples.clone();
        assert(samples@ =~= self.samples@);
        Frame { width: self.width, height: self.height, samples }
    }
}

} // verus!
