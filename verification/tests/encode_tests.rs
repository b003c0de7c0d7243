use og_image::encode::{
    bytes_per_pixel, encode_png, encoding_event, png_outcome, Raster, SampleLayout,
};
use og_image::pipeline::{Event, RenderError};

#[test]
fn bytes_per_pixel_of_each_layout() {
    assert_eq!(bytes_per_pixel(SampleLayout::L8), 1);
    assert_eq!(bytes_per_pixel(SampleLayout::La8), 2);
    assert_eq!(bytes_per_pixel(SampleLayout::Rgb8), 3);
    assert_eq!(bytes_per_pixel(SampleLayout::Rgba8), 4);
    assert_eq!(bytes_per_pixel(SampleLayout::L16), 2);
    assert_eq!(bytes_per_pixel(SampleLayout::La16), 4);
    assert_eq!(bytes_per_pixel(SampleLayout::Rgb16), 6);
    assert_eq!(bytes_per_pixel(SampleLayout::Rgba16), 8);
    assert_eq!(bytes_per_pixel(SampleLayout::Rgb32F), 12);
    assert_eq!(bytes_per_pixel(SampleLayout::Rgba32F), 16);
}

#[test]
fn a_raster_takes_exactly_its_samples() {
    assert!(Raster::new(2, 1, SampleLayout::Rgb8, vec![0; 6]).is_some());
    assert!(Raster::new(2, 1, SampleLayout::Rgb8, vec![0; 5]).is_none());
    assert!(Raster::new(2, 1, SampleLayout::Rgb8, vec![0; 7]).is_none());
    assert!(Raster::new(0, 0, SampleLayout::Rgba8, vec![]).is_some());
    assert!(Raster::new(u32::MAX, u32::MAX, SampleLayout::Rgba32F, vec![]).is_none());
    let raster = Raster::new(3, 2, SampleLayout::La8, vec![7; 12]).unwrap();
    assert_eq!(raster.width(), 3);
    assert_eq!(raster.height(), 2);
    assert_eq!(raster.layout(), SampleLayout::La8);
    assert_eq!(raster.samples(), &vec![7u8; 12]);
}

#[test]
fn an_encoding_is_a_png_of_the_same_pixels() {
    let samples: Vec<u8> = vec![255, 0, 0, 0, 255, 0];
    let raster = Raster::new(2, 1, SampleLayout::Rgb8, samples.clone()).unwrap();
    let bytes = encode_png(&raster).unwrap();
    assert_ne!(bytes, samples);
    assert_eq!(&bytes[..8], &[137u8, 80, 78, 71, 13, 10, 26, 10]);
    let decoded = image::load_from_memory(&bytes).unwrap();
    assert_eq!(decoded.width(), 2);
    assert_eq!(decoded.height(), 1);
    assert_eq!(decoded.color(), image::ColorType::Rgb8);
    assert_eq!(decoded.into_bytes(), samples);
}

#[test]
fn an_encoding_equals_what_the_image_writes_itself() {
    let mut pixels = image::RgbaImage::new(4, 3);
    pixels.put_pixel(1, 2, image::Rgba([10, 20, 30, 255]));
    let image = image::DynamicImage::ImageRgba8(pixels);
    let mut expected: Vec<u8> = Vec::new();
    image
        .write_to(&mut std::io::Cursor::new(&mut expected), image::ImageFormat::Png)
        .unwrap();
    let raster = Raster::new(4, 3, SampleLayout::Rgba8, image.into_bytes()).unwrap();
    assert_eq!(encode_png(&raster), Ok(expected));
}

#[test]
fn the_same_raster_encodes_to_the_same_bytes() {
    let first = Raster::new(5, 5, SampleLayout::L8, vec![3; 25]).unwrap();
    let second = Raster::new(5, 5, SampleLayout::L8, vec![3; 25]).unwrap();
    assert_eq!(encode_png(&first), encode_png(&second));
    assert_eq!(encode_png(&first), encode_png(&first));
}

#[test]
fn sixteen_bit_samples_are_encoded() {
    let image = image::DynamicImage::new_rgb16(2, 2);
    let raster = Raster::new(2, 2, SampleLayout::Rgb16, image.into_bytes()).unwrap();
    let bytes = encode_png(&raster).unwrap();
    let decoded = image::load_from_memory(&bytes).unwrap();
    assert_eq!(decoded.color(), image::ColorType::Rgb16);
    assert_eq!(decoded.width(), 2);
}

#[test]
fn an_empty_image_fails_to_encode() {
    let raster = Raster::new(0, 0, SampleLayout::Rgba8, vec![]).unwrap();
    assert_eq!(encode_png(&raster), Err(RenderError::Encode));
}

#[test]
fn a_layout_that_png_lacks_fails_to_encode() {
    let raster = Raster::new(1, 1, SampleLayout::Rgb32F, vec![0; 12]).unwrap();
    assert_eq!(encode_png(&raster), Err(RenderError::Encode));
}

#[test]
fn an_encoder_error_becomes_an_encoding_failure() {
    let error = image::load_from_memory(&[]).unwrap_err();
    assert_eq!(png_outcome(Err(error)), Err(RenderError::Encode));
    assert_eq!(png_outcome(Ok(vec![1, 2])), Ok(vec![1, 2]));
}

#[test]
fn an_encoding_is_reported_as_an_event() {
    assert_eq!(encoding_event(Ok(vec![1, 2])), Event::Encoded(vec![1, 2]));
    assert_eq!(encoding_event(Err(RenderError::Encode)), Event::EncodeFailed);
}

#[test]
fn every_image_of_one_byte_samples_that_is_not_empty_encodes() {
    for layout in [SampleLayout::L8, SampleLayout::La8, SampleLayout::Rgb8, SampleLayout::Rgba8] {
        let count = usize::from(bytes_per_pixel(layout));
        let pixel = Raster::new(1, 1, layout, vec![200; count]).unwrap();
        assert!(encode_png(&pixel).is_ok());
        let strip = Raster::new(3, 2, layout, vec![17; 6 * count]).unwrap();
        let bytes = encode_png(&strip).unwrap();
        let decoded = image::load_from_memory(&bytes).unwrap();
        assert_eq!((decoded.width(), decoded.height()), (3, 2));
        assert_eq!(decoded.into_bytes(), vec![17u8; 6 * count]);
    }
}

#[test]
fn an_image_without_width_or_height_never_encodes() {
    for layout in [
        SampleLayout::L8,
        SampleLayout::Rgba8,
        SampleLayout::L16,
        SampleLayout::Rgba16,
        SampleLayout::Rgba32F,
    ] {
        let no_width = Raster::new(0, 5, layout, vec![]).unwrap();
        assert_eq!(encode_png(&no_width), Err(RenderError::Encode));
        let no_height = Raster::new(5, 0, layout, vec![]).unwrap();
        assert_eq!(encode_png(&no_height), Err(RenderError::Encode));
    }
}

#[test]
fn floating_point_samples_never_encode() {
    let three = Raster::new(2, 2, SampleLayout::Rgb32F, vec![0; 48]).unwrap();
    assert_eq!(encode_png(&three), Err(RenderError::Encode));
    let four = Raster::new(2, 2, SampleLayout::Rgba32F, vec![0; 64]).unwrap();
    assert_eq!(encode_png(&four), Err(RenderError::Encode));
}
