use frame_pipeline::buffer::{BufferDimensions, BYTES_PER_PIXEL, COPY_BYTES_PER_ROW_ALIGNMENT};

#[test]
fn alignment_is_the_one_of_the_graphics_api() {
    assert_eq!(COPY_BYTES_PER_ROW_ALIGNMENT, wgpu::COPY_BYTES_PER_ROW_ALIGNMENT as u64);
    assert_eq!(BYTES_PER_PIXEL, 4);
}

#[test]
fn width_64_needs_no_padding() {
    let dims = BufferDimensions::new(64, 10);
    assert_eq!(dims.unpadded_bytes_per_row, 256);
    assert_eq!(dims.padded_bytes_per_row, 256);
}

#[test]
fn padded_rows_exact_values() {
    let cases: [(u32, u64, u64); 7] = [
        (0, 0, 0),
        (1, 4, 256),
        (63, 252, 256),
        (64, 256, 256),
        (65, 260, 512),
        (800, 3200, 3328),
        (1920, 7680, 7680),
    ];
    for (width, unpadded, padded) in cases {
        let dims = BufferDimensions::new(width, 3);
        assert_eq!(dims.width, width);
        assert_eq!(dims.height, 3);
        assert_eq!(dims.unpadded_bytes_per_row, unpadded);
        assert_eq!(dims.padded_bytes_per_row, padded);
    }
}

#[test]
fn padded_rows_are_aligned_and_hold_the_row() {
    let mut width: u32 = 1;
    while width < 5000 {
        let dims = BufferDimensions::new(width, 1);
        assert_eq!(dims.padded_bytes_per_row % COPY_BYTES_PER_ROW_ALIGNMENT, 0);
        assert!(dims.padded_bytes_per_row >= dims.unpadded_bytes_per_row);
        assert!(dims.padded_bytes_per_row - dims.unpadded_bytes_per_row < COPY_BYTES_PER_ROW_ALIGNMENT);
        width += 7;
    }
    let widest = BufferDimensions::new(u32::MAX, 1);
    assert_eq!(widest.unpadded_bytes_per_row, 4 * (u32::MAX as u64));
    assert_eq!(widest.padded_bytes_per_row % 256, 0);
    assert!(widest.padded_bytes_per_row >= widest.unpadded_bytes_per_row);
}

#[test]
fn buffer_size_is_rows_times_padded_row() {
    assert_eq!(BufferDimensions::new(800, 600).buffer_size(), Some(3328 * 600));
    assert_eq!(BufferDimensions::new(1, 0).buffer_size(), Some(0));
    assert_eq!(BufferDimensions::new(0, 7).buffer_size(), Some(0));
    assert_eq!(BufferDimensions::new(u32::MAX, u32::MAX).buffer_size(), None);
}

#[test]
fn strip_row_padding_keeps_the_start_of_each_row() {
    let dims = BufferDimensions::new(2, 3);
    assert_eq!(dims.padded_bytes_per_row, 256);
    let mut data = vec![0u8; 256 * 3];
    for row in 0..3usize {
        for col in 0..256usize {
            data[row * 256 + col] = if col < 8 { (10 * row + col) as u8 } else { 0xEE };
        }
    }
    let pixels = dims.strip_row_padding(&data).unwrap();
    assert_eq!(
        pixels,
        vec![
            0, 1, 2, 3, 4, 5, 6, 7, 10, 11, 12, 13, 14, 15, 16, 17, 20, 21, 22, 23, 24, 25, 26, 27
        ]
    );
}

#[test]
fn strip_row_padding_without_padding_is_the_identity() {
    let dims = BufferDimensions::new(64, 2);
    let data: Vec<u8> = (0..512u32).map(|i| (i % 251) as u8).collect();
    assert_eq!(dims.strip_row_padding(&data), Some(data.clone()));
}

#[test]
fn strip_row_padding_refuses_other_lengths() {
    let dims = BufferDimensions::new(2, 3);
    assert_eq!(dims.strip_row_padding(&vec![0u8; 256 * 3 - 1]), None);
    assert_eq!(dims.strip_row_padding(&vec![0u8; 256 * 3 + 1]), None);
    assert_eq!(dims.strip_row_padding(&vec![0u8; 24]), None);
    assert_eq!(dims.strip_row_padding(&[]), None);
}

#[test]
fn strip_row_padding_of_an_empty_image() {
    assert_eq!(BufferDimensions::new(5, 0).strip_row_padding(&[]), Some(vec![]));
    assert_eq!(BufferDimensions::new(0, 5).strip_row_padding(&[]), Some(vec![]));
    assert_eq!(BufferDimensions::new(0, 5).strip_row_padding(&[1]), None);
}

#[test]
fn validity_of_dimensions() {
    let dims = BufferDimensions::new(65, 3);
    assert!(dims.is_valid());
    assert!(!BufferDimensions { padded_bytes_per_row: 260, ..dims }.is_valid());
    assert!(!BufferDimensions { unpadded_bytes_per_row: 256, ..dims }.is_valid());
    assert!(!BufferDimensions { width: 64, ..dims }.is_valid());
    assert!(BufferDimensions { height: 0, ..dims }.is_valid());
    let odd = BufferDimensions { padded_bytes_per_row: 260, ..dims };
    assert_eq!(odd.strip_row_padding(&vec![0u8; 260 * 3]), None);
}
