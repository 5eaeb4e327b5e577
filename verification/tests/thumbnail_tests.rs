use std::io::Cursor;

use media_monitor::color::classify_color;
use media_monitor::events::Rgb;
use media_monitor::image_data::Image;
use media_monitor::thumbnail::get_thumbnail_data;
use media_monitor::thumbnail::ThumbnailError;

fn png_of_uniform(width: u32, height: u32, color: [u8; 3]) -> Vec<u8> {
    let img = image::RgbImage::from_pixel(width, height, image::Rgb(color));
    let mut cursor = Cursor::new(Vec::new());
    image::DynamicImage::ImageRgb8(img)
        .write_to(&mut cursor, image::ImageOutputFormat::Png)
        .unwrap();
    cursor.into_inner()
}

#[test]
fn undecodable_bytes_yield_the_undecodable_error() {
    let garbage = vec![0u8, 1, 2, 3, 4, 5, 6, 7];
    assert!(matches!(get_thumbnail_data(&garbage), Err(ThumbnailError::Undecodable)));
}

#[test]
fn image_outside_the_crop_rectangle_yields_empty_crop() {
    let bytes = png_of_uniform(10, 10, [100, 100, 100]);
    assert!(matches!(get_thumbnail_data(&bytes), Err(ThumbnailError::EmptyCrop)));
}

#[test]
fn large_artwork_crops_to_exactly_233_by_233() {
    let bytes = png_of_uniform(300, 300, [200, 30, 40]);
    let thumb = get_thumbnail_data(&bytes).expect("the pipeline should succeed");
    // The transport image decodes back to a 233x233 PNG of the same pixels:
    // the encode wrappers did real work, not identity.
    let png = base64::decode(&thumb.base64).expect("transport string should be base64");
    let decoded = image::load_from_memory(&png).expect("transport payload should be a PNG");
    let rgb = decoded.to_rgb8();
    assert_eq!(rgb.dimensions(), (233, 233));
    for p in rgb.pixels() {
        assert_eq!(p.0, [200, 30, 40]);
    }
    // A uniform mid-lightness image keeps all pixels, so the average is the
    // pixel color itself.
    assert_eq!(thumb.average_color, Rgb { r: 200, g: 30, b: 40 });
}

#[test]
fn uniform_artwork_has_its_quantized_color_as_prominent() {
    let bytes = png_of_uniform(300, 300, [200, 30, 40]);
    let thumb = get_thumbnail_data(&bytes).expect("the pipeline should succeed");
    // The extractor reports swatch colors in its reduced five-bit-per-channel
    // space, so a uniform (200, 30, 40) image yields exactly the quantized
    // color (200 >> 3, 30 >> 3, 40 >> 3).
    assert_eq!(thumb.prominant_color, Rgb { r: 25, g: 3, b: 5 });
    assert_eq!(thumb.palette, classify_color(&Rgb { r: 25, g: 3, b: 5 }));
}

#[test]
fn colorful_artwork_skips_extraction_but_still_produces_a_thumbnail() {
    // More than 16 distinct quantized colors: the extractor's quantizer
    // cannot run safely on such input, so the prominent color falls back to
    // the default while the crop, the average and the transport image are
    // still produced.
    let mut img = image::RgbImage::new(300, 300);
    for (x, y, p) in img.enumerate_pixels_mut() {
        *p = image::Rgb([60 + (x % 140) as u8, 100, 60 + (y % 140) as u8]);
    }
    let mut cursor = Cursor::new(Vec::new());
    image::DynamicImage::ImageRgb8(img)
        .write_to(&mut cursor, image::ImageOutputFormat::Png)
        .unwrap();
    let bytes = cursor.into_inner();
    let thumb = get_thumbnail_data(&bytes).expect("the pipeline should succeed");
    assert_eq!(thumb.prominant_color, Rgb { r: 245, g: 245, b: 245 });
    assert_eq!(thumb.palette, classify_color(&Rgb { r: 245, g: 245, b: 245 }));
    // The average still reflects the pixels, and the transport image is a
    // real 233x233 PNG.
    assert_ne!(thumb.average_color, Rgb { r: 245, g: 245, b: 245 });
    let png = base64::decode(&thumb.base64).expect("transport string should be base64");
    let decoded = image::load_from_memory(&png).expect("transport payload should be a PNG");
    assert_eq!(decoded.to_rgb8().dimensions(), (233, 233));
}

#[test]
fn crop_clamps_to_the_image_bounds() {
    let mut pixels = Vec::new();
    for y in 0..50u32 {
        for x in 0..100u32 {
            pixels.push(Rgb { r: x as u8, g: y as u8, b: 7 });
        }
    }
    let img = Image::new(100, 50, pixels);
    let cropped = img.crop(34, 1, 233, 233);
    assert_eq!(cropped.get_width(), 66);
    assert_eq!(cropped.get_height(), 49);
    assert_eq!(cropped.pixel_at(0, 0), Rgb { r: 34, g: 1, b: 7 });
    assert_eq!(cropped.pixel_at(65, 48), Rgb { r: 99, g: 49, b: 7 });
}

#[test]
fn crop_starting_outside_the_image_is_empty() {
    let pixels = vec![Rgb { r: 1, g: 2, b: 3 }; 20 * 10];
    let img = Image::new(20, 10, pixels);
    let cropped = img.crop(34, 1, 233, 233);
    assert_eq!(cropped.get_width(), 0);
    assert_eq!(cropped.get_height(), 9);
}
