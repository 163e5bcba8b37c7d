use autoroto::composition::CompositionProperties;
use autoroto::error::FrameError;
use autoroto::frame::{Frame, Rgba8};
use autoroto::frame_provider::image_sequence_provider::frame_of_raw;
use autoroto::frame_provider::null_provider::NullFrameProvider;
use autoroto::frame_provider::FrameProvider;
use autoroto::texture_image::image_to_egui_image;

fn expected_level(coordinate: u32) -> u8 {
    let scaled = 3 * u64::from(coordinate) / 10;
    if scaled >= 255 {
        255
    } else {
        scaled as u8
    }
}

#[test]
fn from_raw_takes_a_buffer_of_the_right_length() {
    let frame = Frame::from_raw(2, 3, vec![7; 24]).expect("24 samples make 2 by 3 pixels");
    assert_eq!(frame.width(), 2);
    assert_eq!(frame.height(), 3);
    assert_eq!(frame.as_raw(), &vec![7u8; 24]);
}

#[test]
fn from_raw_refuses_a_wrong_length() {
    assert!(Frame::from_raw(2, 3, vec![7; 23]).is_none());
    assert!(Frame::from_raw(2, 3, vec![7; 25]).is_none());
    assert!(Frame::from_raw(2, 3, vec![7; 6]).is_none());
    assert!(Frame::from_raw(2, 3, Vec::new()).is_none());
}

#[test]
fn from_raw_refuses_an_empty_raster() {
    assert!(Frame::from_raw(0, 3, Vec::new()).is_none());
    assert!(Frame::from_raw(3, 0, Vec::new()).is_none());
    assert!(Frame::from_raw(0, 0, Vec::new()).is_none());
}

#[test]
fn pixel_reads_row_major_from_the_top() {
    let samples: Vec<u8> = (0..24).collect();
    let frame = Frame::from_raw(3, 2, samples).unwrap();
    assert_eq!(frame.pixel(0, 0), Some(Rgba8 { red: 0, green: 1, blue: 2, alpha: 3 }));
    assert_eq!(frame.pixel(2, 0), Some(Rgba8 { red: 8, green: 9, blue: 10, alpha: 11 }));
    assert_eq!(frame.pixel(0, 1), Some(Rgba8 { red: 12, green: 13, blue: 14, alpha: 15 }));
    assert_eq!(frame.pixel(2, 1), Some(Rgba8 { red: 20, green: 21, blue: 22, alpha: 23 }));
}

#[test]
fn pixel_outside_the_frame_is_none() {
    let frame = Frame::from_raw(3, 2, vec![0; 24]).unwrap();
    assert_eq!(frame.pixel(3, 0), None);
    assert_eq!(frame.pixel(0, 2), None);
    assert_eq!(frame.pixel(u32::MAX, u32::MAX), None);
}

#[test]
fn clone_keeps_dimensions_and_samples() {
    let samples: Vec<u8> = (0..16).collect();
    let frame = Frame::from_raw(2, 2, samples.clone()).unwrap();
    let copy = frame.clone();
    assert_eq!(copy.width(), 2);
    assert_eq!(copy.height(), 2);
    assert_eq!(copy.as_raw(), &samples);
    assert_eq!(frame.as_raw(), &samples);
}

#[test]
fn frame_of_raw_maps_a_bad_buffer_to_decode_error() {
    assert!(frame_of_raw(1, 1, vec![1, 2, 3, 4]).is_ok());
    assert_eq!(frame_of_raw(1, 1, vec![1, 2, 3]).err(), Some(FrameError::DecodeError));
    assert_eq!(frame_of_raw(0, 1, Vec::new()).err(), Some(FrameError::DecodeError));
}

#[test]
fn composition_defaults_to_an_empty_canvas_at_sixty() {
    let composition = CompositionProperties::default();
    assert_eq!(composition, CompositionProperties { width: 0, height: 0, framerate: 60 });
}

#[test]
fn null_4_by_4_pixel_2_1() {
    let mut source = NullFrameProvider::new(4, 4);
    let frame = source.get_frame(0).unwrap();
    assert_eq!(frame.width(), 4);
    assert_eq!(frame.height(), 4);
    assert_eq!(frame.as_raw().len(), 64);
    assert_eq!(frame.pixel(2, 1), Some(Rgba8 { red: 0, green: 0, blue: 0, alpha: 255 }));
}

#[test]
fn null_frames_are_identical_across_calls_and_numbers() {
    let mut source = NullFrameProvider::new(37, 11);
    let first = source.get_frame(0).unwrap();
    let second = source.get_frame(0).unwrap();
    let other = source.get_frame(9_000_000_000).unwrap();
    assert_eq!(first.as_raw(), second.as_raw());
    assert_eq!(first.as_raw(), other.as_raw());
    let mut again = NullFrameProvider::new(37, 11);
    assert_eq!(again.get_frame(0).unwrap().as_raw(), first.as_raw());
    assert_eq!(source.frame().as_raw(), first.as_raw());
}

#[test]
fn null_pixels_follow_the_gradient_formula() {
    let mut source = NullFrameProvider::new(900, 12);
    let frame = source.get_frame(0).unwrap();
    for y in 0..12u32 {
        for x in 0..900u32 {
            let expected = Rgba8 {
                red: expected_level(x),
                green: 0,
                blue: expected_level(y),
                alpha: 255,
            };
            assert_eq!(frame.pixel(x, y), Some(expected));
        }
    }
    assert_eq!(frame.pixel(10, 0).unwrap().red, 3);
    assert_eq!(frame.pixel(11, 0).unwrap().red, 3);
    assert_eq!(frame.pixel(14, 0).unwrap().red, 4);
    assert_eq!(frame.pixel(849, 0).unwrap().red, 254);
    assert_eq!(frame.pixel(850, 0).unwrap().red, 255);
    assert_eq!(frame.pixel(899, 0).unwrap().red, 255);
    assert_eq!(frame.pixel(0, 11).unwrap().blue, 3);
}

#[test]
fn null_gradient_agrees_with_single_precision_arithmetic() {
    let mut source = NullFrameProvider::new(2000, 1);
    let frame = source.get_frame(0).unwrap();
    for x in 0..2000u32 {
        let by_float = (0.3 * x as f32) as u8;
        assert_eq!(frame.pixel(x, 0).unwrap().red, by_float);
    }
}

#[test]
fn null_tall_frame_clamps_blue() {
    let mut source = NullFrameProvider::new(1, 1200);
    let frame = source.get_frame(3).unwrap();
    assert_eq!(frame.pixel(0, 853).unwrap().blue, 255);
    assert_eq!(frame.pixel(0, 1199).unwrap().blue, 255);
    assert_eq!(frame.pixel(0, 100).unwrap().blue, 30);
}

#[test]
fn texture_image_keeps_opaque_pixels() {
    let mut source = NullFrameProvider::new(16, 16);
    let frame = source.get_frame(0).unwrap();
    let image = image_to_egui_image(&frame);
    assert_eq!(image.width(), 16);
    assert_eq!(image.height(), 16);
    assert_eq!(image.as_raw(), frame.as_raw());
}

#[test]
fn texture_image_clears_pixels_without_alpha() {
    let frame = Frame::from_raw(2, 1, vec![200, 100, 50, 0, 9, 8, 7, 255]).unwrap();
    let image = image_to_egui_image(&frame);
    assert_eq!(image.pixel(0, 0), Some(Rgba8 { red: 0, green: 0, blue: 0, alpha: 0 }));
    assert_eq!(image.pixel(1, 0), Some(Rgba8 { red: 9, green: 8, blue: 7, alpha: 255 }));
}

#[test]
fn texture_image_multiplies_translucent_pixels_as_the_toolkit_does() {
    let samples = vec![200, 100, 50, 128, 255, 255, 255, 1, 10, 20, 30, 254];
    let frame = Frame::from_raw(3, 1, samples.clone()).unwrap();
    let image = image_to_egui_image(&frame);
    let toolkit = egui::ColorImage::from_rgba_unmultiplied([3, 1], &samples);
    for x in 0..3usize {
        let texel = image.pixel(x as u32, 0).unwrap();
        let expected = toolkit.pixels[x].to_array();
        assert_eq!([texel.red, texel.green, texel.blue, texel.alpha], expected);
    }
    let first = image.pixel(0, 0).unwrap();
    assert_eq!(first.alpha, 128);
    assert!(first.red < 200);
    assert_ne!(image.as_raw(), &samples);
}
