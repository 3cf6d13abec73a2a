use epd_waveshare_async::buffer::{
    binary_buffer_length, gray2_split_buffer_length, BinaryBuffer, BufferView, Gray2SplitBuffer,
};
use epd_waveshare_async::canvas::Canvas;
use epd_waveshare_async::geometry::{BinaryColor, Gray2, Pixel, Point, Rectangle, Size};

#[test]
fn test_binary_buffer_draw_iter_singles() {
    let size = Size::new(16, 4);
    assert_eq!(binary_buffer_length(size), 8);
    let mut buffer = BinaryBuffer::<8>::new(size);

    // Draw a pixel at the beginning.
    buffer
        .draw_iter(&[Pixel(Point::new(0, 0), BinaryColor::On)])
        .unwrap();
    assert_eq!(buffer.data()[0], 0b10000000);

    // Draw a pixel in the center.
    buffer
        .draw_iter(&[Pixel(Point::new(10, 2), BinaryColor::On)])
        .unwrap();
    assert_eq!(buffer.data()[5], 0b00100000);

    // Draw a pixel at the end.
    buffer
        .draw_iter(&[Pixel(Point::new(15, 3), BinaryColor::On)])
        .unwrap();
    assert_eq!(buffer.data()[7], 0b1);
}

#[test]
fn test_binary_buffer_draw_iter_multiple() {
    let size = Size::new(16, 4);
    let mut buffer = BinaryBuffer::<8>::new(size);

    // Draw several pixels in a row.
    buffer
        .draw_iter(&[
            Pixel(Point::new(1, 0), BinaryColor::On),
            Pixel(Point::new(2, 0), BinaryColor::On),
            Pixel(Point::new(3, 0), BinaryColor::On),
            Pixel(Point::new(2, 0), BinaryColor::Off),
            Pixel(Point::new(1, 1), BinaryColor::On),
        ])
        .unwrap();

    assert_eq!(buffer.data()[0], 0b01010000);
    assert_eq!(buffer.data()[2], 0b01000000);
}

#[test]
fn test_binary_buffer_draw_iter_out_of_bounds() {
    let size = Size::new(16, 4);
    let mut buffer = BinaryBuffer::<8>::new(size);
    let previous_data = buffer.data().to_vec();

    // Draw several pixels in a row.
    buffer
        .draw_iter(&[
            Pixel(Point::new(-1, 0), BinaryColor::On),
            Pixel(Point::new(0, -1), BinaryColor::On),
            Pixel(Point::new(16, 0), BinaryColor::On),
            Pixel(Point::new(0, 4), BinaryColor::On),
        ])
        .unwrap();

    assert_eq!(
        buffer.data(),
        previous_data.as_slice(),
        "Data should not change when drawing out-of-bounds pixels."
    );
}

#[test]
fn test_binary_buffer_fill_continguous() {
    // 8 rows, 3 bytes each.
    let size = Size::new(24, 8);
    let mut buffer = BinaryBuffer::<24>::new(size);

    // Draw diagonal squares.
    buffer
        .fill_contiguous(
            &Rectangle::new(Point::new(-4, -4), Size::new(8, 8)),
            &[BinaryColor::On; 8 * 8],
        )
        .unwrap();
    buffer
        .fill_contiguous(
            // Go out of bounds to ensure it doesn't panic.
            &Rectangle::new(Point::new(6, 2), Size::new(12, 4)),
            &[BinaryColor::On; 12 * 4],
        )
        .unwrap();
    buffer
        .fill_contiguous(
            // Go out of bounds to ensure it doesn't panic.
            &Rectangle::new(Point::new(20, 4), Size::new(8, 8)),
            &[BinaryColor::On; 8 * 8],
        )
        .unwrap();

    let expected: [u8; 3 * 8] = [
        0b11110000, 0b00000000, 0b00000000,
        0b11110000, 0b00000000, 0b00000000,
        0b11110011, 0b11111111, 0b11000000,
        0b11110011, 0b11111111, 0b11000000,
        0b00000011, 0b11111111, 0b11001111,
        0b00000011, 0b11111111, 0b11001111,
        0b00000000, 0b00000000, 0b00001111,
        0b00000000, 0b00000000, 0b00001111,
    ];
    assert_eq!(buffer.data(), &expected);
}

#[test]
fn test_binary_buffer_fill_solid() {
    // 8 rows, 3 bytes each.
    let size = Size::new(24, 8);
    let mut buffer = BinaryBuffer::<24>::new(size);

    // Draw diagonal squares.
    buffer
        .fill_solid(
            &Rectangle::new(Point::new(-4, -4), Size::new(8, 8)),
            BinaryColor::On,
        )
        .unwrap();
    buffer
        .fill_solid(
            // Go out of bounds to ensure it doesn't panic.
            &Rectangle::new(Point::new(6, 2), Size::new(12, 4)),
            BinaryColor::On,
        )
        .unwrap();
    buffer
        .fill_solid(
            // Go out of bounds to ensure it doesn't panic.
            &Rectangle::new(Point::new(20, 4), Size::new(8, 8)),
            BinaryColor::On,
        )
        .unwrap();

    let expected: [u8; 3 * 8] = [
        0b11110000, 0b00000000, 0b00000000,
        0b11110000, 0b00000000, 0b00000000,
        0b11110011, 0b11111111, 0b11000000,
        0b11110011, 0b11111111, 0b11000000,
        0b00000011, 0b11111111, 0b11001111,
        0b00000011, 0b11111111, 0b11001111,
        0b00000000, 0b00000000, 0b00001111,
        0b00000000, 0b00000000, 0b00001111,
    ];
    assert_eq!(buffer.data(), &expected);
}

#[test]
fn test_gray2_split_buffer_draw_iter_singles() {
    let size = Size::new(16, 4);
    assert_eq!(gray2_split_buffer_length(size), 8);
    let mut buffer = Gray2SplitBuffer::<8>::new(size);

    // Draw a pixel at the beginning.
    buffer
        .draw_iter(&[Pixel(Point::new(0, 0), Gray2::new(0b11))])
        .unwrap();
    assert_eq!(buffer.low.data()[0], 0b10000000);
    assert_eq!(buffer.high.data()[0], 0b10000000);

    // Draw a pixel in the center.
    buffer
        .draw_iter(&[Pixel(Point::new(10, 2), Gray2::new(0b10))])
        .unwrap();
    assert_eq!(buffer.data()[0][5], 0b00000000);
    assert_eq!(buffer.data()[1][5], 0b00100000);

    // Draw a pixel at the end.
    buffer
        .draw_iter(&[Pixel(Point::new(15, 3), Gray2::new(0b01))])
        .unwrap();
    assert_eq!(buffer.low.data()[7], 0b1);
    assert_eq!(buffer.high.data()[7], 0b0);
}

#[test]
fn test_gray2_buffer_draw_iter_multiple() {
    let size = Size::new(16, 4);
    let mut buffer = Gray2SplitBuffer::<8>::new(size);

    // Draw several pixels in a row.
    buffer
        .draw_iter(&[
            Pixel(Point::new(1, 0), Gray2::new(0b11)),
            Pixel(Point::new(2, 0), Gray2::new(0b11)),
            Pixel(Point::new(3, 0), Gray2::new(0b01)),
            Pixel(Point::new(2, 0), Gray2::new(0)),
            Pixel(Point::new(1, 1), Gray2::new(0b10)),
        ])
        .unwrap();

    assert_eq!(buffer.low.data()[0], 0b01010000);
    assert_eq!(buffer.high.data()[0], 0b01000000);
    assert_eq!(buffer.low.data()[2], 0b00000000);
    assert_eq!(buffer.high.data()[2], 0b01000000);
}

#[test]
fn test_gray2_buffer_draw_iter_out_of_bounds() {
    let size = Size::new(16, 4);
    let mut buffer = Gray2SplitBuffer::<8>::new(size);
    let previous = buffer.clone();

    // Draw several pixels in a row.
    buffer
        .draw_iter(&[
            Pixel(Point::new(-1, 0), Gray2::new(0b11)),
            Pixel(Point::new(0, -1), Gray2::new(0b11)),
            Pixel(Point::new(16, 0), Gray2::new(0b11)),
            Pixel(Point::new(0, 4), Gray2::new(0b11)),
        ])
        .unwrap();

    assert_eq!(
        buffer.data(),
        previous.data(),
        "Data should not change when drawing out-of-bounds pixels."
    );
}

#[test]
fn test_gray2_buffer_fill_solid() {
    // 8 rows, 3 bytes each.
    let size = Size::new(24, 8);
    let mut buffer = Gray2SplitBuffer::<24>::new(size);

    // Draw diagonal squares.
    buffer
        .fill_solid(
            &Rectangle::new(Point::new(-4, -4), Size::new(8, 8)),
            Gray2::new(0b11),
        )
        .unwrap();
    buffer
        .fill_solid(
            // Go out of bounds to ensure it doesn't panic.
            &Rectangle::new(Point::new(6, 2), Size::new(12, 4)),
            Gray2::new(0b10),
        )
        .unwrap();
    buffer
        .fill_solid(
            // Go out of bounds to ensure it doesn't panic.
            &Rectangle::new(Point::new(20, 4), Size::new(8, 8)),
            Gray2::new(0b01),
        )
        .unwrap();

    let expected_low: [u8; 3 * 8] = [
        0b11110000, 0b00000000, 0b00000000,
        0b11110000, 0b00000000, 0b00000000,
        0b11110000, 0b00000000, 0b00000000,
        0b11110000, 0b00000000, 0b00000000,
        0b00000000, 0b00000000, 0b00001111,
        0b00000000, 0b00000000, 0b00001111,
        0b00000000, 0b00000000, 0b00001111,
        0b00000000, 0b00000000, 0b00001111,
    ];
    let expected_high: [u8; 3 * 8] = [
        0b11110000, 0b00000000, 0b00000000,
        0b11110000, 0b00000000, 0b00000000,
        0b11110011, 0b11111111, 0b11000000,
        0b11110011, 0b11111111, 0b11000000,
        0b00000011, 0b11111111, 0b11000000,
        0b00000011, 0b11111111, 0b11000000,
        0b00000000, 0b00000000, 0b00000000,
        0b00000000, 0b00000000, 0b00000000,
    ];
    assert_eq!(buffer.data()[0], &expected_low);
    assert_eq!(buffer.data()[1], &expected_high);
}
