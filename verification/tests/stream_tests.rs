use gif_maker::error::{ConversionError, WriteTarget};
use gif_maker::picture::RgbaFrame;
use gif_maker::stream::{AnimationStream, MAX_DIMENSION, QUANTIZER_SPEED};
use gif_maker::timing::{frame_delay_cs, SAMPLING_RATE_FPS};

fn solid(width: u32, height: u32, colour: [u8; 4]) -> RgbaFrame {
    let mut pixels = Vec::new();
    for _ in 0..width * height {
        pixels.extend_from_slice(&colour);
    }
    RgbaFrame::new(width, height, pixels).unwrap()
}

fn animation_of(frames: Vec<RgbaFrame>, width: u32, height: u32, delay: u16) -> Vec<u8> {
    let (mut stream, mut file) = AnimationStream::open(width, height).unwrap();
    for frame in frames {
        file.extend(stream.push_frame(frame, delay).unwrap());
    }
    file.extend(stream.close());
    file
}

#[test]
fn quantizer_speed_is_moderate() {
    assert_eq!(QUANTIZER_SPEED, 10);
}

#[test]
fn the_opening_bytes_are_header_and_endless_loop() {
    let (_stream, bytes) = AnimationStream::open(0x0123, 0x0045).unwrap();
    let mut expected = Vec::new();
    expected.extend_from_slice(b"GIF89a");
    expected.extend_from_slice(&[0x23, 0x01, 0x45, 0x00, 0x80, 0x00, 0x00]);
    expected.extend_from_slice(&[0, 0, 0, 0, 0, 0]);
    expected.extend_from_slice(&[0x21, 0xFF, 0x0B]);
    expected.extend_from_slice(b"NETSCAPE2.0");
    expected.extend_from_slice(&[0x03, 0x01, 0x00, 0x00, 0x00]);
    assert_eq!(bytes, expected);
}

#[test]
fn the_largest_size_is_accepted() {
    assert_eq!(MAX_DIMENSION, 65_535);
    let (_stream, bytes) = AnimationStream::open(65_535, 65_535).unwrap();
    assert_eq!(&bytes[6..10], &[0xFF, 0xFF, 0xFF, 0xFF]);
}

#[test]
fn a_size_beyond_the_format_is_refused() {
    for (width, height) in [(65_536, 1), (1, 65_536), (u32::MAX, u32::MAX)] {
        match AnimationStream::open(width, height) {
            Err(ConversionError::EncoderInit { cause }) => {
                assert_eq!(cause, "frames are larger than an animation can be");
            }
            _ => panic!("an animation of {} by {} was opened", width, height),
        }
    }
}

#[test]
fn a_frame_starts_with_its_control_block() {
    let (mut stream, _) = AnimationStream::open(2, 2).unwrap();
    let bytes = stream.push_frame(solid(2, 2, [200, 10, 10, 255]), 0x0107).unwrap();
    assert_eq!(&bytes[..8], &[0x21, 0xF9, 0x04, 0x04, 0x07, 0x01, 0x00, 0x00]);
    assert_eq!(bytes[8], 0x2C);
    assert_eq!(&bytes[9..17], &[0, 0, 0, 0, 2, 0, 2, 0]);
    assert_eq!(*bytes.last().unwrap(), 0x00);
}

#[test]
fn a_transparent_frame_names_its_transparent_index() {
    let (mut stream, _) = AnimationStream::open(2, 1).unwrap();
    let frame = RgbaFrame::new(2, 1, vec![9, 9, 9, 255, 0, 0, 0, 0]).unwrap();
    let bytes = stream.push_frame(frame, 7).unwrap();
    assert_eq!(&bytes[..6], &[0x21, 0xF9, 0x04, 0x05, 0x07, 0x00]);
    assert_eq!(bytes[7], 0x00);
}

#[test]
fn closing_gives_the_trailer() {
    let (stream, _) = AnimationStream::open(1, 1).unwrap();
    assert_eq!(stream.close(), vec![0x3B]);
}

#[test]
fn a_frame_of_another_size_is_refused() {
    let (mut stream, _) = AnimationStream::open(2, 2).unwrap();
    match stream.push_frame(solid(2, 3, [1, 2, 3, 255]), 7) {
        Err(ConversionError::ImageDecode { cause }) => {
            assert_eq!(cause, "frame size differs from the first frame");
        }
        _ => panic!("a frame of another size was encoded"),
    }
    let bytes = stream.push_frame(solid(2, 2, [1, 2, 3, 255]), 7).unwrap();
    assert_eq!(bytes[0], 0x21);
    assert_eq!(stream.close(), vec![0x3B]);
}

#[test]
fn a_refused_frame_is_no_write_error() {
    let (mut stream, _) = AnimationStream::open(1, 1).unwrap();
    let result = stream.push_frame(solid(1, 2, [0, 0, 0, 255]), 1);
    assert!(!matches!(result, Err(ConversionError::Write { target: WriteTarget::Frame, .. })));
    assert!(result.is_err());
}

#[test]
fn three_frames_round_trip() {
    let delay = frame_delay_cs(SAMPLING_RATE_FPS);
    let frames = vec![
        solid(4, 3, [255, 0, 0, 255]),
        solid(4, 3, [0, 255, 0, 255]),
        solid(4, 3, [0, 0, 255, 255]),
    ];
    let file = animation_of(frames, 4, 3, delay);

    let mut options = gif::DecodeOptions::new();
    options.set_color_output(gif::ColorOutput::RGBA);
    let mut decoder = options.read_info(std::io::Cursor::new(file)).unwrap();
    assert_eq!(decoder.width(), 4);
    assert_eq!(decoder.height(), 3);
    let colours = [[255u8, 0, 0, 255], [0, 255, 0, 255], [0, 0, 255, 255]];
    let mut count = 0;
    while let Some(frame) = decoder.read_next_frame().unwrap() {
        assert_eq!(frame.delay, 7);
        assert_eq!(frame.width, 4);
        assert_eq!(frame.height, 3);
        assert_eq!(frame.buffer.len(), 4 * 3 * 4);
        for pixel in frame.buffer.chunks(4) {
            assert_eq!(pixel, &colours[count]);
        }
        count += 1;
    }
    assert_eq!(count, 3);
    assert_eq!(decoder.repeat(), gif::Repeat::Infinite);
}

#[test]
fn many_colours_are_reduced_to_a_palette() {
    let mut pixels = Vec::new();
    for y in 0..32u32 {
        for x in 0..32u32 {
            pixels.extend_from_slice(&[(x * 8) as u8, (y * 8) as u8, ((x + y) * 4) as u8, 255]);
        }
    }
    let frame = RgbaFrame::new(32, 32, pixels).unwrap();
    let file = animation_of(vec![frame], 32, 32, 7);
    let mut decoder = gif::DecodeOptions::new().read_info(std::io::Cursor::new(file)).unwrap();
    let decoded = decoder.read_next_frame().unwrap().unwrap();
    assert_eq!(decoded.buffer.len(), 32 * 32);
    assert!(decoded.palette.as_ref().unwrap().len() <= 256 * 3);
    assert!(decoder.read_next_frame().unwrap().is_none());
}

#[test]
fn an_animation_without_frames_is_still_a_file() {
    let file = animation_of(Vec::new(), 5, 5, 7);
    assert_eq!(file.len(), 19 + 19 + 1);
    assert_eq!(&file[..6], b"GIF89a");
    assert_eq!(*file.last().unwrap(), 0x3B);
}

#[test]
fn equal_frames_give_equal_bytes() {
    let (mut stream, _) = AnimationStream::open(3, 3).unwrap();
    let first = stream.push_frame(solid(3, 3, [7, 8, 9, 255]), 7).unwrap();
    let second = stream.push_frame(solid(3, 3, [7, 8, 9, 255]), 7).unwrap();
    assert_eq!(first, second);
    let slower = stream.push_frame(solid(3, 3, [7, 8, 9, 255]), 8).unwrap();
    assert_eq!(slower[4], 8);
    assert_eq!(&slower[5..], &first[5..]);
}

fn table_entries(colours: usize) -> usize {
    if colours <= 2 {
        2
    } else if colours <= 4 {
        4
    } else if colours <= 8 {
        8
    } else if colours <= 16 {
        16
    } else if colours <= 32 {
        32
    } else if colours <= 64 {
        64
    } else if colours <= 128 {
        128
    } else {
        256
    }
}

fn table_size(colours: usize) -> u8 {
    if colours <= 2 {
        0
    } else if colours <= 4 {
        1
    } else if colours <= 8 {
        2
    } else if colours <= 16 {
        3
    } else if colours <= 32 {
        4
    } else if colours <= 64 {
        5
    } else if colours <= 128 {
        6
    } else {
        7
    }
}

#[test]
fn a_frame_brings_its_descriptor_and_a_padded_colour_table() {
    for colours in 1usize..=256 {
        let mut pixels = Vec::new();
        for shade in 0..colours {
            pixels.extend_from_slice(&[shade as u8, 0, 0, 255]);
        }
        let width = colours as u32;
        let (mut stream, _) = AnimationStream::open(width, 1).unwrap();
        let bytes = stream.push_frame(RgbaFrame::new(width, 1, pixels).unwrap(), 7).unwrap();

        let mut expected = vec![0x21, 0xF9, 0x04, 0x04, 0x07, 0x00, 0x00, 0x00];
        expected.extend_from_slice(&[0x2C, 0, 0, 0, 0]);
        expected.extend_from_slice(&[(colours % 256) as u8, (colours / 256) as u8, 1, 0]);
        expected.push(0x80 + table_size(colours));
        for shade in 0..colours {
            expected.extend_from_slice(&[shade as u8, 0, 0]);
        }
        for _ in colours..table_entries(colours) {
            expected.extend_from_slice(&[0, 0, 0]);
        }
        assert_eq!(expected.len(), 8 + 10 + 3 * table_entries(colours));
        assert!(bytes.len() > expected.len());
        assert_eq!(&bytes[..expected.len()], &expected[..]);
        assert_eq!(*bytes.last().unwrap(), 0x00);
    }
}

#[test]
fn a_frame_without_pixels_brings_the_smallest_colour_table() {
    let (mut stream, _) = AnimationStream::open(0, 3).unwrap();
    let bytes = stream.push_frame(RgbaFrame::new(0, 3, Vec::new()).unwrap(), 7).unwrap();
    let expected = [
        0x21, 0xF9, 0x04, 0x04, 0x07, 0x00, 0x00, 0x00, 0x2C, 0, 0, 0, 0, 0, 0, 3, 0, 0x80, 0, 0,
        0, 0, 0, 0,
    ];
    assert_eq!(&bytes[..expected.len()], &expected[..]);
}

#[test]
fn a_reduced_palette_fills_the_largest_colour_table() {
    let mut pixels = Vec::new();
    for y in 0..32u32 {
        for x in 0..32u32 {
            pixels.extend_from_slice(&[(x * 8) as u8, (y * 8) as u8, ((x + y) * 4) as u8, 255]);
        }
    }
    let (mut stream, _) = AnimationStream::open(32, 32).unwrap();
    let bytes = stream.push_frame(RgbaFrame::new(32, 32, pixels).unwrap(), 7).unwrap();
    assert_eq!(&bytes[8..18], &[0x2C, 0, 0, 0, 0, 32, 0, 32, 0, 0x87]);
    assert_eq!(bytes[18 + 768], 8);
}

#[test]
fn a_transparent_colour_stands_in_the_colour_table() {
    let (mut stream, _) = AnimationStream::open(2, 1).unwrap();
    let frame = RgbaFrame::new(2, 1, vec![9, 8, 7, 255, 1, 2, 3, 0]).unwrap();
    let bytes = stream.push_frame(frame, 7).unwrap();
    assert_eq!(&bytes[..8], &[0x21, 0xF9, 0x04, 0x05, 0x07, 0x00, 0x00, 0x00]);
    assert_eq!(&bytes[8..18], &[0x2C, 0, 0, 0, 0, 2, 0, 1, 0, 0x80]);
    assert_eq!(&bytes[18..24], &[1, 2, 3, 9, 8, 7]);
}
