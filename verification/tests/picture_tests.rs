use gif_maker::error::ConversionError;
use gif_maker::picture::{decode_frame, RgbaFrame, BYTES_PER_PIXEL};

fn png_of(width: u32, height: u32, pixels: Vec<u8>) -> Vec<u8> {
    let picture = image::RgbaImage::from_raw(width, height, pixels).unwrap();
    let mut file = std::io::Cursor::new(Vec::new());
    image::DynamicImage::ImageRgba8(picture)
        .write_to(&mut file, image::ImageFormat::Png)
        .unwrap();
    file.into_inner()
}

#[test]
fn a_frame_takes_four_bytes_for_each_pixel() {
    assert_eq!(BYTES_PER_PIXEL, 4);
    let frame = RgbaFrame::new(3, 2, vec![0; 24]).unwrap();
    assert_eq!(frame.width(), 3);
    assert_eq!(frame.height(), 2);
    assert_eq!(frame.into_pixels(), vec![0; 24]);
}

#[test]
fn a_frame_without_pixels_is_accepted() {
    let frame = RgbaFrame::new(0, 7, Vec::new()).unwrap();
    assert_eq!(frame.width(), 0);
    assert_eq!(frame.height(), 7);
}

#[test]
fn pixel_data_of_the_wrong_length_is_refused() {
    for length in [0usize, 23, 25, 6] {
        match RgbaFrame::new(3, 2, vec![0; length]) {
            Err(ConversionError::ImageDecode { cause }) => {
                assert_eq!(cause, "pixel data does not match the image size");
            }
            _ => panic!("pixel data of length {} was accepted", length),
        }
    }
}

#[test]
fn a_huge_size_does_not_overflow() {
    assert!(RgbaFrame::new(u32::MAX, u32::MAX, vec![0; 4]).is_err());
}

#[test]
fn a_png_file_decodes_to_its_pixels() {
    let pixels = vec![
        255, 0, 0, 255, 0, 255, 0, 255, 0, 0, 255, 255, 10, 20, 30, 255, 40, 50, 60, 255, 70, 80,
        90, 128,
    ];
    let frame = decode_frame(&png_of(3, 2, pixels.clone())).unwrap();
    assert_eq!(frame.width(), 3);
    assert_eq!(frame.height(), 2);
    assert_eq!(frame.into_pixels(), pixels);
}

#[test]
fn an_opaque_png_gets_full_alpha() {
    let picture = image::RgbImage::from_raw(1, 2, vec![1, 2, 3, 4, 5, 6]).unwrap();
    let mut file = std::io::Cursor::new(Vec::new());
    image::DynamicImage::ImageRgb8(picture)
        .write_to(&mut file, image::ImageFormat::Png)
        .unwrap();
    let frame = decode_frame(&file.into_inner()).unwrap();
    assert_eq!(frame.width(), 1);
    assert_eq!(frame.height(), 2);
    assert_eq!(frame.into_pixels(), vec![1, 2, 3, 255, 4, 5, 6, 255]);
}

#[test]
fn bytes_that_are_no_image_fail_to_decode() {
    match decode_frame(b"this is not an image") {
        Err(ConversionError::ImageDecode { cause }) => assert!(!cause.is_empty()),
        _ => panic!("garbage was decoded"),
    }
}

#[test]
fn an_empty_file_fails_to_decode() {
    assert!(matches!(decode_frame(&[]), Err(ConversionError::ImageDecode { .. })));
}

#[test]
fn a_truncated_png_fails_to_decode() {
    let file = png_of(4, 4, vec![9; 64]);
    let cut = &file[..file.len() / 2];
    assert!(matches!(decode_frame(cut), Err(ConversionError::ImageDecode { .. })));
}
