use dev_hud::raster::{
    bottom_left_samples, gif_frames, screenshot_file_samples, screenshot_samples, RgbaImage,
};

fn counting_pixels(width: u32, height: u32) -> Vec<u8> {
    (0..(width * height * 4)).map(|i| (i % 256) as u8).collect()
}

fn png_bytes(width: u32, height: u32) -> Vec<u8> {
    let buf = image::RgbaImage::from_raw(width, height, counting_pixels(width, height)).unwrap();
    let mut out = std::io::Cursor::new(Vec::new());
    image::DynamicImage::ImageRgba8(buf).write_to(&mut out, image::ImageFormat::Png).unwrap();
    out.into_inner()
}

#[test]
fn raster_bottom_left_samples_every_fourth_pixel() {
    let img = RgbaImage { width: 16, height: 8, pixels: counting_pixels(16, 8) };
    assert_eq!(bottom_left_samples(&img), vec![(0, 1, 2), (16, 17, 18)]);
    let short = RgbaImage { width: 16, height: 8, pixels: counting_pixels(16, 8)[..274].to_vec() };
    assert_eq!(bottom_left_samples(&short), vec![(0, 1, 2)]);
    let tall = RgbaImage { width: 9, height: 10, pixels: counting_pixels(9, 10) };
    // rows 5 and 9, column 0 only (the quadrant is 4 wide)
    assert_eq!(bottom_left_samples(&tall), vec![(180, 181, 182), (68, 69, 70)]);
    let empty = RgbaImage { width: 1, height: 1, pixels: vec![1, 2, 3, 4] };
    assert!(bottom_left_samples(&empty).is_empty());
}

#[test]
fn raster_screenshot_decodes_then_samples() {
    let png = png_bytes(16, 8);
    assert_eq!(screenshot_samples(&png), Some(vec![(0, 1, 2), (16, 17, 18)]));
    assert_eq!(screenshot_samples(b"not an image"), None);
    assert_eq!(screenshot_file_samples(&png, "png"), Some(vec![(0, 1, 2), (16, 17, 18)]));
    assert_eq!(screenshot_file_samples(&png, "gif"), None);
    assert_eq!(screenshot_file_samples(&png, "xyz"), None);
}

#[test]
fn raster_gif_frames() {
    assert!(gif_frames(b"GIF89a broken").is_empty());
    let mut out = Vec::new();
    {
        let mut enc = image::codecs::gif::GifEncoder::new(&mut out);
        for shade in [10u8, 200u8] {
            let buf = image::RgbaImage::from_pixel(3, 2, image::Rgba([shade, shade, shade, 255]));
            enc.encode_frame(image::Frame::new(buf)).unwrap();
        }
    }
    let frames = gif_frames(&out);
    assert_eq!(frames.len(), 2);
    assert_eq!((frames[0].width, frames[0].height), (3, 2));
    assert_eq!(frames[0].pixels.len(), 3 * 2 * 4);
    assert_eq!(frames[1].pixels[3], 255);
}
