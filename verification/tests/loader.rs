use image::{DynamicImage, GrayImage, ImageFormat, Rgb, RgbImage};
use onnx_ml_test::loader::luma_of_decoded;
use onnx_ml_test::{load_image, preprocess_image, PipelineError};
use std::io::Cursor;
use std::path::Path;

/// The extension of a path, without its dot, or nothing where it has none.
fn extension_of(path: &str) -> &str {
    Path::new(path).extension().and_then(|extension| extension.to_str()).unwrap_or("")
}

/// A dark page with bright strokes across it, as a luminance image.
fn drawing(width: u32, height: u32) -> GrayImage {
    let mut image = GrayImage::new(width, height);
    for y in 0..height {
        for x in 0..width {
            let on_bar = y % (height / 3).max(1) < (height / 12).max(1);
            let on_stem = x > width / 4 && x < width / 4 + (width / 10).max(1);
            let value = if on_bar || on_stem { 230 } else { 15 };
            image.put_pixel(x, y, image::Luma([value]));
        }
    }
    image
}

fn encoded(image: &GrayImage, format: ImageFormat) -> Vec<u8> {
    let mut bytes = Vec::new();
    image.write_to(&mut Cursor::new(&mut bytes), format).unwrap();
    bytes
}

#[test]
fn preprocess_image_when_handwritten_digit_5_jpg_then_is_resized_gray_scale_vector() {
    let img_path = "test_data/handwritten_5.jpg";
    let bytes = encoded(&drawing(240, 320), ImageFormat::Jpeg);

    let ready_img = preprocess_image(&bytes, extension_of(img_path)).unwrap();

    let (width, height) = (ready_img.width(), ready_img.height());
    assert_eq!(28, width);
    assert_eq!(28, height);
    assert_eq!(784, ready_img.pixels().len());
    for &value in ready_img.pixels().iter() {
        assert!(value as u32 <= 255, "Value {} is out of bounds for grayscale!", value);
    }
}

#[test]
fn preprocess_image_when_handwritten_digit_3_png_then_is_resized_gray_scale_vector() {
    let img_path = "test_data/handwritten_3.png";
    let bytes = encoded(&drawing(300, 180), ImageFormat::Png);

    let ready_img = preprocess_image(&bytes, extension_of(img_path)).unwrap();

    let (width, height) = (ready_img.width(), ready_img.height());
    assert_eq!(28, width);
    assert_eq!(28, height);
    assert_eq!(784, ready_img.pixels().len());
    for &value in ready_img.pixels().iter() {
        assert!(value as u32 <= 255, "Value {} is out of bounds for grayscale!", value);
    }
}

#[test]
fn preprocess_image_of_a_png_takes_every_fifth_pixel() {
    let source = drawing(140, 140);
    let canvas = preprocess_image(&encoded(&source, ImageFormat::Png), "png").unwrap();
    for row in 0..28u32 {
        for column in 0..28u32 {
            let expected = source.get_pixel(5 * column + 2, 5 * row + 2)[0];
            assert_eq!(canvas.get(row, column), Some(expected));
        }
    }
}

#[test]
fn preprocess_image_fails_on_bytes_that_are_no_image() {
    let failure = preprocess_image(b"not an image at all", "png").unwrap_err();
    assert_eq!(failure, PipelineError::ImageDecodeFailure);
    let failure = preprocess_image(b"not an image at all", "jpg").unwrap_err();
    assert_eq!(failure, PipelineError::ImageDecodeFailure);
    let failure = preprocess_image(&[], "jpg").unwrap_err();
    assert_eq!(failure, PipelineError::ImageDecodeFailure);
    let failure = preprocess_image(&[], "png").unwrap_err();
    assert_eq!(failure, PipelineError::ImageDecodeFailure);
}

#[test]
fn load_image_keeps_size_and_luminance_of_a_png() {
    let source = drawing(31, 17);
    let image = load_image(&encoded(&source, ImageFormat::Png), "png").unwrap();
    assert_eq!(image.width(), 31);
    assert_eq!(image.height(), 17);
    assert_eq!(image.pixels(), source.as_raw());
}

#[test]
fn load_image_keeps_the_size_of_a_jpeg() {
    let source = drawing(64, 48);
    let image = load_image(&encoded(&source, ImageFormat::Jpeg), "jpeg").unwrap();
    assert_eq!(image.width(), 64);
    assert_eq!(image.height(), 48);
    assert_eq!(image.pixels().len(), 64 * 48);
}

#[test]
fn load_image_tells_the_format_from_the_extension() {
    let bytes = encoded(&drawing(8, 8), ImageFormat::Png);
    assert!(load_image(&bytes, "png").is_ok());
    assert!(load_image(&bytes, "PNG").is_ok());
    assert!(load_image(&bytes, extension_of("some/where/digit.png")).is_ok());
    assert_eq!(load_image(&bytes, "jpg").unwrap_err(), PipelineError::ImageDecodeFailure);
    assert_eq!(load_image(&bytes, "").unwrap_err(), PipelineError::ImageDecodeFailure);
    assert_eq!(load_image(&bytes, "txt").unwrap_err(), PipelineError::ImageDecodeFailure);
    assert_eq!(load_image(&bytes, ".png").unwrap_err(), PipelineError::ImageDecodeFailure);
    assert_eq!(
        load_image(&bytes, extension_of("digit")).unwrap_err(),
        PipelineError::ImageDecodeFailure
    );
}

#[test]
fn load_image_decodes_the_same_bytes_to_the_same_grid() {
    for format in [ImageFormat::Png, ImageFormat::Jpeg] {
        let bytes = encoded(&drawing(45, 33), format);
        let extension = if format == ImageFormat::Png { "png" } else { "jpg" };
        let first = load_image(&bytes, extension).unwrap();
        let second = load_image(&bytes, extension).unwrap();
        assert_eq!(first.width(), second.width());
        assert_eq!(first.height(), second.height());
        assert_eq!(first.pixels(), second.pixels());
        let canvas = preprocess_image(&bytes, extension).unwrap();
        assert_eq!(canvas.pixels(), preprocess_image(&bytes, extension).unwrap().pixels());
        assert_eq!(canvas.pixels(), onnx_ml_test::normalize(&first).pixels());
    }
}

#[test]
fn load_image_fails_on_a_cut_off_file() {
    let bytes = encoded(&drawing(40, 40), ImageFormat::Png);
    let failure = load_image(&bytes[..bytes.len() / 2], "png").unwrap_err();
    assert_eq!(failure, PipelineError::ImageDecodeFailure);
}

#[test]
fn luma_of_decoded_turns_colour_into_luminance() {
    let mut colour = RgbImage::new(3, 2);
    colour.put_pixel(0, 0, Rgb([255, 255, 255]));
    colour.put_pixel(1, 0, Rgb([0, 0, 0]));
    colour.put_pixel(2, 0, Rgb([128, 128, 128]));
    colour.put_pixel(0, 1, Rgb([255, 0, 0]));
    colour.put_pixel(1, 1, Rgb([0, 255, 0]));
    colour.put_pixel(2, 1, Rgb([0, 0, 255]));
    let expected = DynamicImage::ImageRgb8(colour.clone()).to_luma8();

    let image = luma_of_decoded(Ok(DynamicImage::ImageRgb8(colour))).unwrap();

    assert_eq!(image.width(), 3);
    assert_eq!(image.height(), 2);
    assert_eq!(image.pixels(), expected.as_raw());
    assert_eq!(image.get(0, 0), Some(255));
    assert_eq!(image.get(0, 1), Some(0));
    assert_eq!(image.get(0, 2), Some(128));
    let green = image.get(1, 1).unwrap();
    assert!(green > image.get(1, 0).unwrap());
    assert!(image.get(1, 0).unwrap() > image.get(1, 2).unwrap());
}

#[test]
fn luma_of_decoded_takes_one_pixel_for_each_place() {
    let roomy = GrayImage::from_raw(2, 2, vec![1, 2, 3, 4, 5, 6, 7]).unwrap();
    let image = luma_of_decoded(Ok(DynamicImage::ImageLuma8(roomy))).unwrap();
    assert_eq!(image.width(), 2);
    assert_eq!(image.height(), 2);
    assert_eq!(image.pixels(), &vec![1, 2, 3, 4]);
}

#[test]
fn luma_of_decoded_hands_on_the_failure() {
    let failure = image::load_from_memory_with_format(b"no image", ImageFormat::Png);
    assert!(failure.is_err());
    assert_eq!(luma_of_decoded(failure).unwrap_err(), PipelineError::ImageDecodeFailure);
}

#[test]
fn preprocess_image_of_a_flat_wide_image_has_no_bars() {
    let flat = RgbImage::from_pixel(56, 28, Rgb([200, 200, 200]));
    let mut bytes = Vec::new();
    flat.write_to(&mut Cursor::new(&mut bytes), ImageFormat::Png).unwrap();

    let canvas = preprocess_image(&bytes, "png").unwrap();

    assert_eq!((canvas.width(), canvas.height()), (28, 28));
    assert_eq!(canvas.pixels(), &vec![200u8; 784]);
}

#[test]
fn preprocess_image_stretches_each_axis_of_a_file_by_itself() {
    let mut source = GrayImage::new(56, 14);
    for y in 0..14 {
        for x in 0..56 {
            source.put_pixel(x, y, image::Luma([((y * 17 + x * 3) % 256) as u8]));
        }
    }

    let canvas = preprocess_image(&encoded(&source, ImageFormat::Png), "png").unwrap();

    for row in 0..28u32 {
        for column in 0..28u32 {
            let expected = source.get_pixel(2 * column + 1, row / 2)[0];
            assert_eq!(canvas.get(row, column), Some(expected));
        }
    }
}

#[test]
fn load_image_decodes_the_other_formats_by_their_extension() {
    let source = drawing(20, 12);
    for (format, extension) in [
        (ImageFormat::Bmp, "bmp"),
        (ImageFormat::Gif, "gif"),
        (ImageFormat::Tiff, "tiff"),
        (ImageFormat::Pnm, "pgm"),
        (ImageFormat::Tga, "tga"),
        (ImageFormat::Qoi, "qoi"),
    ] {
        let rgb = DynamicImage::ImageLuma8(source.clone()).to_rgb8();
        let mut bytes = Vec::new();
        rgb.write_to(&mut Cursor::new(&mut bytes), format).unwrap();
        let image = load_image(&bytes, extension).unwrap();
        assert_eq!(image.width(), 20);
        assert_eq!(image.height(), 12);
        assert_eq!(image.pixels(), source.as_raw());
        assert_eq!(load_image(&bytes, "png").unwrap_err(), PipelineError::ImageDecodeFailure);
    }
}

#[test]
fn load_image_fails_on_a_format_without_a_decoder() {
    let bytes = encoded(&drawing(8, 8), ImageFormat::Png);
    assert_eq!(load_image(&bytes, "avif").unwrap_err(), PipelineError::ImageDecodeFailure);
}
