use epd_waveshare_async::buffer::BinaryBuffer;
use epd_waveshare_async::geometry::{BinaryColor, Pixel, Point, Rectangle, Size};
use epd_waveshare_async::rotation::{Rotate, RotatedBuffer, Rotation};

#[test]
fn test_rotated_buffer_bounds() {
    let size = Size::new(8, 24);

    let mut rotated_buffer = RotatedBuffer::new(BinaryBuffer::<24>::new(size), Rotate::Degrees90);
    assert_eq!(
        rotated_buffer.bounding_box(),
        Rectangle::new(Point::new(0, 0), Size::new(24, 8))
    );

    rotated_buffer = RotatedBuffer::new(BinaryBuffer::<24>::new(size), Rotate::Degrees180);
    assert_eq!(
        rotated_buffer.bounding_box(),
        Rectangle::new(Point::new(0, 0), Size::new(8, 24))
    );

    rotated_buffer = RotatedBuffer::new(BinaryBuffer::<24>::new(size), Rotate::Degrees270);
    assert_eq!(
        rotated_buffer.bounding_box(),
        Rectangle::new(Point::new(0, 0), Size::new(24, 8))
    );
}

#[test]
fn test_rotated_buffer_draw_iter() {
    let size = Size::new(8, 4);

    let mut rotated_buffer = RotatedBuffer::new(BinaryBuffer::<4>::new(size), Rotate::Degrees90);
    rotated_buffer
        .draw_iter(&[
            Pixel(Point::new(-1, -1), BinaryColor::On), // Should be ignored.
            Pixel(Point::new(0, 0), BinaryColor::On),
            Pixel(Point::new(1, 1), BinaryColor::On),
            Pixel(Point::new(2, 2), BinaryColor::On),
        ])
        .unwrap();
    let expected: [u8; 4] = [
            0b00000001,
            0b00000010,
            0b00000100,
            0b00000000,
        ];
    assert_eq!(rotated_buffer.inner().data(), &expected);

    rotated_buffer = RotatedBuffer::new(BinaryBuffer::<4>::new(size), Rotate::Degrees180);
    rotated_buffer
        .draw_iter(&[
            Pixel(Point::new(-1, -1), BinaryColor::On), // Should be ignored.
            Pixel(Point::new(0, 0), BinaryColor::On),
            Pixel(Point::new(1, 1), BinaryColor::On),
            Pixel(Point::new(2, 2), BinaryColor::On),
        ])
        .unwrap();
    let expected: [u8; 4] = [
            0b00000000,
            0b00000100,
            0b00000010,
            0b00000001,
        ];
    assert_eq!(rotated_buffer.inner().data(), &expected);

    rotated_buffer = RotatedBuffer::new(BinaryBuffer::<4>::new(size), Rotate::Degrees270);
    rotated_buffer
        .draw_iter(&[
            Pixel(Point::new(-1, -1), BinaryColor::On), // Should be ignored.
            Pixel(Point::new(0, 0), BinaryColor::On),
            Pixel(Point::new(1, 1), BinaryColor::On),
            Pixel(Point::new(2, 2), BinaryColor::On),
        ])
        .unwrap();
    let expected: [u8; 4] = [
            0b00000000,
            0b00100000,
            0b01000000,
            0b10000000,
        ];
    assert_eq!(rotated_buffer.inner().data(), &expected);
}

#[test]
fn test_rotated_buffer_fill_contiguous() {
    // 6 rows, 1 byte each.
    let size = Size::new(8, 6);
    let buffer = BinaryBuffer::<6>::new(size);

    let mut rotated_buffer = RotatedBuffer::new(buffer.clone(), Rotate::Degrees90);
    rotated_buffer
        .fill_contiguous(
            &Rectangle::new(Point::new(-4, -4), Size::new(8, 8)),
            &[BinaryColor::On; 8 * 8],
        )
        .unwrap();

    let expected: [u8; 6] = [
        0b00001111,
        0b00001111,
        0b00001111,
        0b00001111,
        0b00000000,
        0b00000000,
    ];
    assert_eq!(rotated_buffer.inner().data(), &expected);

    rotated_buffer = RotatedBuffer::new(buffer.clone(), Rotate::Degrees180);
    rotated_buffer
        .fill_contiguous(
            &Rectangle::new(Point::new(-4, -4), Size::new(8, 8)),
            &[BinaryColor::On; 8 * 8],
        )
        .unwrap();

    let expected: [u8; 6] = [
        0b00000000,
        0b00000000,
        0b00001111,
        0b00001111,
        0b00001111,
        0b00001111,
    ];
    assert_eq!(rotated_buffer.inner().data(), &expected);

    rotated_buffer = RotatedBuffer::new(buffer.clone(), Rotate::Degrees270);
    rotated_buffer
        .fill_contiguous(
            &Rectangle::new(Point::new(-4, -4), Size::new(8, 8)),
            &[BinaryColor::On; 8 * 8],
        )
        .unwrap();

    let expected: [u8; 6] = [
        0b00000000,
        0b00000000,
        0b11110000,
        0b11110000,
        0b11110000,
        0b11110000,
    ];
    assert_eq!(rotated_buffer.inner().data(), &expected);
}

#[test]
fn test_rotated_buffer_fill_solid() {
    // 6 rows, 1 byte each.
    let size = Size::new(8, 6);
    let buffer = BinaryBuffer::<6>::new(size);

    let mut rotated_buffer = RotatedBuffer::new(buffer.clone(), Rotate::Degrees90);
    rotated_buffer
        .fill_solid(
            &Rectangle::new(Point::new(-4, -4), Size::new(8, 8)),
            BinaryColor::On,
        )
        .unwrap();

    let expected: [u8; 6] = [
        0b00001111,
        0b00001111,
        0b00001111,
        0b00001111,
        0b00000000,
        0b00000000,
    ];
    assert_eq!(rotated_buffer.inner().data(), &expected);

    rotated_buffer = RotatedBuffer::new(buffer.clone(), Rotate::Degrees180);
    rotated_buffer
        .fill_solid(
            &Rectangle::new(Point::new(-4, -4), Size::new(8, 8)),
            BinaryColor::On,
        )
        .unwrap();

    let expected: [u8; 6] = [
        0b00000000,
        0b00000000,
        0b00001111,
        0b00001111,
        0b00001111,
        0b00001111,
    ];
    assert_eq!(rotated_buffer.inner().data(), &expected);

    rotated_buffer = RotatedBuffer::new(buffer.clone(), Rotate::Degrees270);
    rotated_buffer
        .fill_solid(
            &Rectangle::new(Point::new(-4, -4), Size::new(8, 8)),
            BinaryColor::On,
        )
        .unwrap();

    let expected: [u8; 6] = [
        0b00000000,
        0b00000000,
        0b11110000,
        0b11110000,
        0b11110000,
        0b11110000,
    ];
    assert_eq!(rotated_buffer.inner().data(), &expected);
}

#[test]
fn test_rotate_near_corner() {
    let mut r = Rotate::Degrees90;
    // (1,1) in [10, 20] becomes (18, 1) in [20, 10].
    assert_eq!(
        Point::new(18, 1),
        r.rotate_point(Point::new(1, 1), Size::new(10, 20))
    );
    r = Rotate::Degrees180;
    // (1,1) in [10, 20] becomes (8, 18) in [10, 20].
    assert_eq!(
        Point::new(8, 18),
        r.rotate_point(Point::new(1, 1), Size::new(10, 20))
    );
    r = Rotate::Degrees270;
    // (1,1) in [10, 20] becomes (1, 8) in [20, 10].
    assert_eq!(
        Point::new(1, 8),
        r.rotate_point(Point::new(1, 1), Size::new(10, 20))
    );
}

#[test]
fn test_rotate_centre() {
    let mut r = Rotate::Degrees90;
    assert_eq!(
        Point::new(2, 2),
        r.rotate_point(Point::new(2, 2), Size::new(5, 5))
    );
    r = Rotate::Degrees180;
    assert_eq!(
        Point::new(2, 2),
        r.rotate_point(Point::new(2, 2), Size::new(5, 5))
    );
    r = Rotate::Degrees270;
    assert_eq!(
        Point::new(2, 2),
        r.rotate_point(Point::new(2, 2), Size::new(5, 5))
    );
}

#[test]
fn test_rotate_size() {
    let mut r = Rotate::Degrees90;
    assert_eq!(Size::new(5, 10), r.rotate_size(Size::new(10, 5)));
    r = Rotate::Degrees180;
    assert_eq!(Size::new(10, 5), r.rotate_size(Size::new(10, 5)));
    r = Rotate::Degrees270;
    assert_eq!(Size::new(5, 10), r.rotate_size(Size::new(10, 5)));
}

#[test]
fn test_rotate_rectangle() {
    let mut r = Rotate::Degrees90;
    let rect = Rectangle::new(Point::new(1, 1), Size::new(3, 2));
    // Assume we're rotating _into_ an 8x4 destination buffer.
    let _dest_bounds = Size::new(8, 4);
    let mut source_bounds = Size::new(4, 8);
    let rotated = r.rotate_rectangle(rect, source_bounds);
    // (1, 1) in [4, 8] becomes (6, 1) in [8, 4].
    // The old bottom left is (1, 2), which becomes (5, 1).
    assert_eq!(rotated.top_left, Point::new(5, 1));
    assert_eq!(rotated.size, Size::new(2, 3));

    r = Rotate::Degrees180;
    source_bounds = Size::new(8, 4);
    let rotated = r.rotate_rectangle(rect, source_bounds);
    // (1, 1) in [8, 4] becomes (6, 2) in [8, 4].
    // The old bottom right is (3, 2), which becomes (4, 1).
    assert_eq!(rotated.top_left, Point::new(4, 1));
    assert_eq!(rotated.size, Size::new(3, 2));

    r = Rotate::Degrees270;
    source_bounds = Size::new(4, 8);
    let rotated = r.rotate_rectangle(rect, source_bounds);
    // (1, 1) in [4, 8] becomes (1, 2) in [8, 4].
    // The old top right is (3, 1), which becomes (1, 0).
    assert_eq!(rotated.top_left, Point::new(1, 0));
    assert_eq!(rotated.size, Size::new(2, 3));
}

#[test]
fn rotate_point_documented_example() {
    let r = Rotate::Degrees90;
    assert_eq!(r.rotate_point(Point::new(1, 2), Size::new(10, 20)), Point::new(17, 1));
}

#[test]
fn rotation_range_checks() {
    let bounds = Size::new(10, 20);
    assert!(Rotate::Degrees90.can_rotate_point(Point::new(1, 2), bounds));
    assert!(!Rotate::Degrees90.can_rotate_point(Point::new(0, i32::MIN), bounds));
    assert!(Rotate::Degrees90.can_rotate_point(Point::new(0, i32::MAX), bounds));
    assert!(!Rotate::Degrees270.can_rotate_point(Point::new(i32::MIN, 0), bounds));
    assert!(Rotate::Degrees270.can_rotate_point(Point::new(0, i32::MIN), bounds));
    assert!(!Rotate::Degrees180.can_rotate_point(Point::new(0, i32::MIN), bounds));
    let origin = Rectangle::new(Point::new(0, 0), bounds);
    for r in [Rotate::Degrees90, Rotate::Degrees180, Rotate::Degrees270] {
        assert!(r.can_rotate_rectangle(origin, bounds));
    }
    let far = Rectangle::new(Point::new(i32::MAX, 0), Size::new(2, 2));
    assert!(!Rotate::Degrees180.can_rotate_rectangle(far, bounds));
    assert!(!Rotate::Degrees270.can_rotate_rectangle(far, bounds));
    let edge = Rectangle::new(Point::new(i32::MIN, 0), Size::new(0, 0));
    assert!(!Rotate::Degrees180.can_rotate_rectangle(edge, bounds));
}

#[test]
fn binary_buffer_documented_example() {
    let buffer = BinaryBuffer::<8>::new(Size::new(8, 8));
    assert_eq!(buffer.data(), &[0u8; 8]);
}
