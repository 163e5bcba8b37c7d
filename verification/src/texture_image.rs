use vstd::prelude::*;
use crate::frame::{lemma_offset_in_bounds, Frame, Rgba8};

verus! {

/// What is known of the texel that the display makes of a pixel, whose
/// colour samples it multiplies by alpha: alpha stays, an opaque pixel stays
/// as it is, and a pixel without alpha has no colour left.
pub open spec fn premultiplies(pixel: Rgba8, texel: Rgba8) -> bool {
    &&& texel.alpha == pixel.alpha
    &&& pixel.alpha == 255 ==> texel == pixel
    &&& pixel.alpha == 0 ==> texel == (Rgba8 { red: 0, green: 0, blue: 0, alpha: 0 })
}

/// The pixel whose samples begin at `4 * position` in `samples`.
pub open spec fn pixel_at(samples: Seq<u8>, position: int) -> Rgba8 {
    Rgba8 {
        red: samples[4 * position],
        green: samples[4 * position + 1],
        blue: samples[4 * position + 2],
        alpha: samples[4 * position + 3],
    }
}

/// Calls `egui::Color32::from_rgba_unmultiplied` and hands out the four
/// bytes of the colour it made. The contract states the two cases that the
/// function picks out, full and no alpha, and that alpha is kept. Of the
/// colour samples of a translucent pixel it states nothing: they come out of
/// floating-point arithmetic.
#[verifier::external_body]
fn premultiply(pixel: Rgba8) -> (texel: Rgba8)
    ensures
        premultiplies(pixel, texel),
{
    let [red, green, blue, alpha] = egui::Color32::from_rgba_unmultiplied(
        pixel.red,
        pixel.green,
        pixel.blue,
        pixel.alpha,
    ).to_array();
    Rgba8 { red, green, blue, alpha }
}

/// Makes of a frame the image that the display texture takes: a raster of
/// the same dimensions in which every pixel is the texel of the frame's
/// pixel in that place.
pub fn image_to_egui_image(frame: &Frame) -> (image: Frame)
    ensures
        image@.width == frame@.width,
        image@.height == frame@.height,
        image@.well_formed(),
        forall|x: int, y: int|
            frame@.holds(x, y) ==> premultiplies(frame@.pixel(x, y), #[trigger] image@.pixel(x, y)),
{
    let samples = frame.as_raw();
    assert(samples@.len() == 4 * (frame@.width * frame@.height)) by (nonlinear_arith)
        requires
            samples@.len() == 4 * frame@.width * frame@.height,
    ;
    let count: usize = samples.len() / 4;
    let mut texels: Vec<u8> = Vec::new();
    let mut position: usize = 0;
    while position < count
        invariant
            position <= count,
            count * 4 == samples.len(),
            texels@.len() == 4 * position,
            forall|done: int|
                0 <= done < position ==> premultiplies(
                    pixel_at(samples@, done),
                    #[trigger] pixel_at(texels@, done),
                ),
        decreases count - position,
    {
        let at: usize = 4 * position;
        let texel = premultiply(
            Rgba8 {
                red: samples[at],
                green: samples[at + 1],
                blue: samples[at + 2],
                alpha: samples[at + 3],
            },
        );
        let ghost before = texels@;
        texels.push(texel.red);
        texels.push(texel.green);
        texels.push(texel.blue);
        texels.push(texel.alpha);
        assert forall|done: int| 0 <= done < position + 1 implies premultiplies(
            pixel_at(samples@, done),
            #[trigger] pixel_at(texels@, done),
        ) by {
            if done < position {
                assert(pixel_at(texels@, done) == pixel_at(before, done));
            }
        }
        position += 1;
    }
    let image = Frame::from_raw(frame.width(), frame.height(), texels).unwrap();
    assert forall|x: int, y: int| frame@.holds(x, y) implies premultiplies(
        frame@.pixel(x, y),
        #[trigger] image@.pixel(x, y),
    ) by {
        lemma_offset_in_bounds(frame@, x, y);
        let place = y * frame@.width + x;
        assert(frame@.pixel(x, y) == pixel_at(frame@.samples, place));
        assert(image@.pixel(x, y) == pixel_at(image@.samples, place));
    }
    image
}

} // verus!
