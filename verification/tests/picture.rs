use buzz_ui::picture::{decode_picture, picture_from_frame, PixelLayout};

fn encode(width: u32, height: u32, colour: png::ColorType, data: &[u8]) -> Vec<u8> {
    let mut bytes = Vec::new();
    {
        let mut encoder = png::Encoder::new(&mut bytes, width, height);
        encoder.set_color(colour);
        encoder.set_depth(png::BitDepth::Eight);
        let mut writer = encoder.write_header().expect("header");
        writer.write_image_data(data).expect("data");
        writer.finish().expect("finish");
    }
    bytes
}

#[test]
fn an_rgba_png_decodes_to_its_pixels() {
    let data = [255, 0, 0, 255, 0, 255, 0, 128, 0, 0, 255, 0, 9, 8, 7, 6];
    let bytes = encode(2, 2, png::ColorType::Rgba, &data);
    let picture = decode_picture(&bytes).expect("an RGBA PNG is shown");
    assert_eq!((picture.width, picture.height), (2, 2));
    assert_eq!(picture.layout, PixelLayout::Rgba);
    assert_eq!(picture.pixels, data.to_vec());
}

#[test]
fn an_rgb_png_decodes_to_its_pixels() {
    let data = [1, 2, 3, 4, 5, 6, 7, 8, 9];
    let bytes = encode(3, 1, png::ColorType::Rgb, &data);
    let picture = decode_picture(&bytes).expect("an RGB PNG is shown");
    assert_eq!((picture.width, picture.height), (3, 1));
    assert_eq!(picture.layout, PixelLayout::Rgb);
    assert_eq!(picture.pixels, data.to_vec());
}

#[test]
fn a_grey_png_is_refused() {
    let bytes = encode(2, 1, png::ColorType::Grayscale, &[0, 255]);
    assert!(decode_picture(&bytes).is_none());
}

#[test]
fn bytes_that_are_not_a_png_are_refused() {
    assert!(decode_picture(b"not a picture at all").is_none());
    assert!(decode_picture(&[]).is_none());
}

#[test]
fn only_rgba_and_rgb_frames_have_a_layout() {
    let p = picture_from_frame(4, 5, 6, vec![1, 2]).expect("RGBA");
    assert_eq!((p.width, p.height, p.layout, p.pixels), (4, 5, PixelLayout::Rgba, vec![1, 2]));
    assert_eq!(picture_from_frame(1, 1, 2, vec![0; 3]).map(|p| p.layout), Some(PixelLayout::Rgb));
    for colour in [0u8, 3, 4, 1, 255] {
        assert!(picture_from_frame(1, 1, colour, vec![0]).is_none(), "colour type {colour}");
    }
}
