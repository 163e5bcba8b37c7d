use vstd::prelude::*;
use vstd::arithmetic::div_mod::{
    lemma_fundamental_div_mod_converse_div,
    lemma_fundamental_div_mod_converse_mod,
};
use crate::error::FrameError;
use crate::frame::{Frame, Raster, Rgba8};
use crate::frame_provider::FrameProvider;

verus! {

/// Three tenths of a coordinate, rounded down and held to one byte.
pub open spec fn gradient_level(coordinate: int) -> u8 {
    if 3 * coordinate / 10 >= 255 {
        255u8
    } else {
        (3 * coordinate / 10) as u8
    }
}

/// The placeholder's pixel in column `x` of row `y`: red grows with the
/// column, blue with the row, green is absent and the pixel is opaque.
pub open spec fn gradient_pixel(x: int, y: int) -> Rgba8 {
    Rgba8 { red: gradient_level(x), green: 0, blue: gradient_level(y), alpha: 255 }
}

/// The sample at position `at` of the placeholder's buffer, for rows of
/// `width` pixels.
pub open spec fn gradient_sample(width: nat, at: int) -> u8 {
    let pixel = gradient_pixel((at / 4) % (width as int), (at / 4) / (width as int));
    if at % 4 == 0 {
        pixel.red
    } else if at % 4 == 1 {
        pixel.green
    } else if at % 4 == 2 {
        pixel.blue
    } else {
        pixel.alpha
    }
}

/// The placeholder raster of `width` by `height` pixels.
pub open spec fn gradient(width: nat, height: nat) -> Raster {
    Raster {
        width,
        height,
        samples: Seq::new(4 * width * height, |at: int| gradient_sample(width, at)),
    }
}

/// The four samples that begin at the offset of column `x` in row `y` are
/// those of `gradient_pixel(x, y)`.
pub proof fn lemma_gradient_samples(width: nat, x: int, y: int)
    requires
        0 <= x < width,
        0 <= y,
    ensures
        gradient_sample(width, 4 * (y * width + x)) == gradient_pixel(x, y).red,
        gradient_sample(width, 4 * (y * width + x) + 1) == gradient_pixel(x, y).green,
        gradient_sample(width, 4 * (y * width + x) + 2) == gradient_pixel(x, y).blue,
        gradient_sample(width, 4 * (y * width + x) + 3) == gradient_pixel(x, y).alpha,
{
    let pixel = y * width + x;
    lemma_fundamental_div_mod_converse_mod(pixel, width as int, y, x);
    lemma_fundamental_div_mod_converse_div(pixel, width as int, y, x);
}

/// Every pixel of the placeholder raster is given by the gradient formula.
pub proof fn lemma_gradient_pixels(width: nat, height: nat, x: int, y: int)
    requires
        0 <= x < width,
        0 <= y < height,
    ensures
        gradient(width, height).well_formed(),
        gradient(width, height).pixel(x, y) == gradient_pixel(x, y),
{
    let raster = gradient(width, height);
    crate::frame::lemma_offset_in_bounds(raster, x, y);
    lemma_gradient_samples(width, x, y);
}

/// Computes `gradient_level` of a coordinate.
fn level(coordinate: u32) -> (level: u8)
    ensures
        level == gradient_level(coordinate as int),
{
    let scaled: u64 = 3 * (coordinate as u64) / 10;
    if scaled >= 255 {
        255
    } else {
        scaled as u8
    }
}

/// A source without files: every frame of it is the same synthetic gradient.
pub struct NullFrameProvider {
    cached_frame: Frame,
}

impl NullFrameProvider {
    #[verifier::type_invariant]
    spec fn lawful(self) -> bool {
        self.cached_frame@ == gradient(self.cached_frame@.width, self.cached_frame@.height)
    }

    /// The number of pixels in a row of its frames.
    pub closed spec fn width(self) -> nat {
        self.cached_frame@.width
    }

    /// The number of rows of its frames.
    pub closed spec fn height(self) -> nat {
        self.cached_frame@.height
    }

    /// A placeholder source whose frames are `width` by `height` pixels.
    pub fn new(width: u32, height: u32) -> (provider: Self)
        requires
            width > 0,
            height > 0,
            4 * width * height <= usize::MAX,
        ensures
            provider.width() == width,
            provider.height() == height,
    {
        let mut samples: Vec<u8> = Vec::new();
        let mut y: u32 = 0;
        while y < height
            invariant
                y <= height,
                samples@.len() == 4 * (y * width),
                forall|at: int|
                    0 <= at < samples@.len() ==> samples@[at] == gradient_sample(
                        width as nat,
                        at,
                    ),
            decreases height - y,
        {
            let blue = level(y);
            let mut x: u32 = 0;
            while x < width
                invariant
                    x <= width,
                    y < height,
                    blue == gradient_level(y as int),
                    samples@.len() == 4 * (y * width + x),
                    forall|at: int|
                        0 <= at < samples@.len() ==> samples@[at] == gradient_sample(
                            width as nat,
                            at,
                        ),
                decreases width - x,
            {
                proof {
                    lemma_gradient_samples(width as nat, x as int, y as int);
                }
                samples.push(level(x));
                samples.push(0);
                samples.push(blue);
                samples.push(255);
                x += 1;
            }
            assert(4 * (y * width + width) == 4 * ((y + 1) * width)) by (nonlinear_arith);
            y += 1;
        }
        assert(4 * (height * width) == 4 * width * height) by (nonlinear_arith);
        assert(samples@ =~= gradient(width as nat, height as nat).samples);
        NullFrameProvider { cached_frame: Frame::from_raw(width, height, samples).unwrap() }
    }

    /// The frame that every request comes to.
    pub fn frame(&self) -> (frame: Frame)
        ensures
            frame@ == gradient(self.width(), self.height()),
    {
        proof {
            use_type_invariant(self);
        }
        self.cached_frame.clone()
    }
}

impl FrameProvider for NullFrameProvider {
    /// Every request comes to the gradient and leaves the provider as it was.
    open spec fn answers(
        self,
        frame_number: u64,
        outcome: Result<Raster, FrameError>,
        after: Self,
    ) -> bool {
        outcome == Ok::<Raster, FrameError>(gradient(self.width(), self.height())) && after == self
    }

    fn get_frame(&mut self, frame_number: u64) -> (outcome: Result<Frame, FrameError>) {
        Ok(self.frame())
    }
}

/// Two requests made of a placeholder, one after the other and for whatever
/// frame numbers, come to the same frame: the gradient of its dimensions.
pub proof fn lemma_placeholder_is_constant(
    provider: NullFrameProvider,
    first_number: u64,
    first: Result<Raster, FrameError>,
    between: NullFrameProvider,
    second_number: u64,
    second: Result<Raster, FrameError>,
    after: NullFrameProvider,
)
    requires
        provider.answers(first_number, first, between),
        between.answers(second_number, second, after),
    ensures
        first == Ok::<Raster, FrameError>(gradient(provider.width(), provider.height())),
        second == first,
{
}

} // verus!
