use frame_pipeline::buffer::BufferDimensions;
use frame_pipeline::command::Capture;
use frame_pipeline::screenshot::{
    create_png, encoded_image, png_dimensions, EncodeFailure, ScreenshotError,
};
use frame_pipeline::surface::Size;

fn padded_frame(width: u32, height: u32) -> (BufferDimensions, Vec<u8>, Vec<u8>) {
    let dims = BufferDimensions::new(width, height);
    let padded = dims.padded_bytes_per_row as usize;
    let unpadded = dims.unpadded_bytes_per_row as usize;
    let mut data = vec![0xAAu8; padded * height as usize];
    let mut pixels = Vec::new();
    for row in 0..height as usize {
        for col in 0..unpadded {
            let value = ((row * 31 + col * 7) % 256) as u8;
            data[row * padded + col] = value;
            pixels.push(value);
        }
    }
    (dims, data, pixels)
}

fn decode(png_bytes: &[u8]) -> (u32, u32, png::ColorType, png::BitDepth, Vec<u8>) {
    let decoder = png::Decoder::new(png_bytes);
    let mut reader = decoder.read_info().unwrap();
    let mut buffer = vec![0u8; reader.output_buffer_size()];
    let info = reader.next_frame(&mut buffer).unwrap();
    buffer.truncate(info.buffer_size());
    (info.width, info.height, info.color_type, info.bit_depth, buffer)
}

#[test]
fn plan_of_800_by_600() {
    let capture = Capture::plan(Size { width: 800, height: 600 }, 4).unwrap();
    assert_eq!(capture.dims, BufferDimensions::new(800, 600));
    assert_eq!(capture.bytes_per_row, 3328);
    assert_eq!(capture.buffer_size, 3328 * 600);
    assert_eq!(capture.slot, 4);
}

#[test]
fn plan_refuses_what_cannot_be_captured() {
    assert_eq!(Capture::plan(Size { width: 0, height: 600 }, 0), None);
    assert_eq!(Capture::plan(Size { width: 800, height: 0 }, 0), None);
    assert_eq!(Capture::plan(Size { width: 0, height: 0 }, 0), None);
    let widest = (1u32 << 30) - 64;
    let capture = Capture::plan(Size { width: widest, height: 1 }, 0).unwrap();
    assert_eq!(capture.bytes_per_row as u64, 4 * widest as u64);
    assert_eq!(Capture::plan(Size { width: widest + 1, height: 1 }, 0), None);
    assert_eq!(Capture::plan(Size { width: u32::MAX, height: u32::MAX }, 0), None);
}

#[test]
fn plan_of_the_largest_capture_fits() {
    let widest = (1u32 << 30) - 64;
    let capture = Capture::plan(Size { width: widest, height: u32::MAX }, 1).unwrap();
    assert_eq!(capture.buffer_size, (4 * widest as u64) * (u32::MAX as u64));
}

#[test]
fn screenshot_round_trip_keeps_size_and_pixels() {
    for (width, height) in [(1u32, 1u32), (3, 2), (64, 4), (65, 3), (100, 50)] {
        let (dims, data, pixels) = padded_frame(width, height);
        let file = create_png(true, &dims, Some(&data)).unwrap().unwrap();
        assert_eq!(&file[..8], &[137, 80, 78, 71, 13, 10, 26, 10]);
        let (w, h, color, depth, decoded) = decode(&file);
        assert_eq!((w, h), (width, height));
        assert_eq!(color, png::ColorType::Rgba);
        assert_eq!(depth, png::BitDepth::Eight);
        assert_eq!(decoded, pixels);
    }
}

#[test]
fn same_frame_gives_the_same_file() {
    let (dims, data, _) = padded_frame(20, 10);
    let first = create_png(true, &dims, Some(&data)).unwrap().unwrap();
    let second = create_png(true, &dims, Some(&data)).unwrap().unwrap();
    assert_eq!(first, second);
    let mut other = data.clone();
    other[0] ^= 0xFF;
    let third = create_png(true, &dims, Some(&other)).unwrap().unwrap();
    assert_ne!(first, third);
}

#[test]
fn without_file_system_nothing_is_done() {
    let (dims, data, _) = padded_frame(3, 2);
    assert_eq!(create_png(false, &dims, Some(&data)), Ok(None));
    assert_eq!(create_png(false, &dims, None), Ok(None));
    assert_eq!(create_png(false, &dims, Some(&[1, 2, 3])), Ok(None));
}

#[test]
fn a_mapped_frame_with_pixels_always_becomes_an_image() {
    for width in 1..40u32 {
        for height in 1..6u32 {
            let (dims, data, pixels) = padded_frame(width, height);
            let file = create_png(true, &dims, Some(&data)).unwrap().unwrap();
            let (w, h, color, depth, decoded) = decode(&file);
            assert_eq!((w, h), (width, height));
            assert_eq!(color, png::ColorType::Rgba);
            assert_eq!(depth, png::BitDepth::Eight);
            assert_eq!(decoded, pixels);
            assert_eq!(file[24], 8);
            assert_eq!(file[25], 6);
        }
    }
}

#[test]
fn wrong_buffer_is_an_error() {
    let (dims, data, _) = padded_frame(3, 2);
    assert_eq!(
        create_png(true, &dims, Some(&data[..data.len() - 1])),
        Err(ScreenshotError::BufferMismatch)
    );
    assert_eq!(create_png(true, &dims, Some(&[])), Err(ScreenshotError::BufferMismatch));
}

#[test]
fn empty_image_is_an_error() {
    assert_eq!(
        create_png(true, &BufferDimensions::new(0, 4), Some(&[])),
        Err(ScreenshotError::EmptyImage)
    );
    assert_eq!(
        create_png(true, &BufferDimensions::new(4, 0), Some(&[])),
        Err(ScreenshotError::EmptyImage)
    );
}

#[test]
fn encoder_failures_are_told_apart() {
    assert_eq!(encoded_image(Ok(vec![1, 2, 3])), Ok(vec![1, 2, 3]));
    assert_eq!(
        encoded_image(Err(png::EncodingError::LimitsExceeded)),
        Err(ScreenshotError::Encoding(EncodeFailure::LimitsExceeded))
    );
    let io = std::io::Error::new(std::io::ErrorKind::Other, "full");
    assert_eq!(
        encoded_image(Err(png::EncodingError::IoError(io))),
        Err(ScreenshotError::Encoding(EncodeFailure::Io))
    );
    let zero_width = png::Encoder::new(Vec::new(), 0, 1).write_header().err().unwrap();
    assert_eq!(
        encoded_image(Err(zero_width)),
        Err(ScreenshotError::Encoding(EncodeFailure::Format))
    );
    let mut writer = png::Encoder::new(Vec::new(), 1, 1).write_header().unwrap();
    let wrong_size = writer.write_image_data(&[0, 0, 0]).err().unwrap();
    assert_eq!(
        encoded_image(Err(wrong_size)),
        Err(ScreenshotError::Encoding(EncodeFailure::Parameter))
    );
}

#[test]
fn file_states_the_size_of_the_frame() {
    for (width, height) in [(1u32, 1u32), (3, 2), (64, 4), (65, 3), (300, 2), (2, 70000)] {
        let (dims, data, _) = padded_frame(width, height);
        let file = create_png(true, &dims, Some(&data)).unwrap().unwrap();
        assert_eq!(png_dimensions(&file), Some(Size { width, height }));
        let (decoded_width, decoded_height, _, _, _) = decode(&file);
        assert_eq!(
            png_dimensions(&file),
            Some(Size { width: decoded_width, height: decoded_height })
        );
    }
}

#[test]
fn file_begins_with_signature_and_header() {
    let (dims, data, _) = padded_frame(0x0102, 3);
    let file = create_png(true, &dims, Some(&data)).unwrap().unwrap();
    assert_eq!(
        &file[..29],
        &[
            137, 80, 78, 71, 13, 10, 26, 10, 0, 0, 0, 13, 73, 72, 68, 82, 0, 0, 1, 2, 0, 0, 0, 3,
            8, 6, 0, 0, 0
        ]
    );
}

#[test]
fn dimensions_of_what_is_no_png_file() {
    assert_eq!(png_dimensions(&[]), None);
    assert_eq!(png_dimensions(&[137, 80, 78, 71, 13, 10, 26, 10]), None);
    let (dims, data, _) = padded_frame(5, 7);
    let file = create_png(true, &dims, Some(&data)).unwrap().unwrap();
    assert_eq!(png_dimensions(&file[..24]), Some(Size { width: 5, height: 7 }));
    assert_eq!(png_dimensions(&file[..23]), None);
    for place in 0..16 {
        let mut broken = file.clone();
        broken[place] ^= 1;
        assert_eq!(png_dimensions(&broken), None, "with byte {} changed", place);
    }
    let mut larger = file.clone();
    larger[16] = 0xFF;
    larger[23] = 0xFF;
    assert_eq!(png_dimensions(&larger), Some(Size { width: 0xFF00_0005, height: 0xFF }));
}

#[test]
fn dimensions_of_a_file_of_another_kind_of_image() {
    let mut file = Vec::new();
    {
        let mut encoder = png::Encoder::new(&mut file, 9, 4);
        encoder.set_color(png::ColorType::Grayscale);
        encoder.set_depth(png::BitDepth::Eight);
        let mut writer = encoder.write_header().unwrap();
        writer.write_image_data(&[0u8; 36]).unwrap();
        writer.finish().unwrap();
    }
    assert_eq!(png_dimensions(&file), Some(Size { width: 9, height: 4 }));
}

#[test]
fn rows_too_long_for_the_encoder_are_refused() {
    let too_wide = BufferDimensions::new(1 << 30, 1);
    assert_eq!(create_png(true, &too_wide, Some(&[])), Err(ScreenshotError::RowTooLong));
    assert_eq!(create_png(true, &too_wide, Some(&[0; 8])), Err(ScreenshotError::RowTooLong));
    let widest = BufferDimensions::new(u32::MAX, 0);
    assert_eq!(create_png(true, &widest, Some(&[])), Err(ScreenshotError::RowTooLong));
    assert_eq!(create_png(false, &too_wide, None), Ok(None));
    let just_fits = BufferDimensions::new((1 << 30) - 1, 1);
    assert_eq!(create_png(true, &just_fits, Some(&[])), Err(ScreenshotError::BufferMismatch));
    assert_eq!(Capture::plan(Size { width: 1 << 30, height: 1 }, 0), None);
}
