use epd_waveshare_async::buffer::{binary_buffer_length, gray2_split_buffer_length, BinaryBuffer, Gray2SplitBuffer};
use epd_waveshare_async::canvas::Canvas;
use epd_waveshare_async::geometry::{BinaryColor, Gray2, Pixel, PinState, Point, Rectangle, Size};
use epd_waveshare_async::hw::{busy_wait_target, invert_bytes, send_ops, send_stream_ops, split_low_and_high, BusOp};
use epd_waveshare_async::rotation::{Rotate, RotatedBuffer, Rotation};

#[test]
fn buffer_lengths() {
    assert_eq!(binary_buffer_length(Size::new(800, 480)), 48_000);
    assert_eq!(binary_buffer_length(Size::new(8, 3)), 3);
    assert_eq!(gray2_split_buffer_length(Size::new(800, 480)), 48_000);
}

#[test]
fn fill_solid_unaligned_start() {
    let mut buffer = BinaryBuffer::<3>::new(Size::new(24, 1));
    buffer
        .fill_solid(&Rectangle::new(Point::new(2, 0), Size::new(20, 1)), BinaryColor::On)
        .unwrap();
    assert_eq!(buffer.data(), &[0b00111111, 0b11111111, 0b11111100]);

    let mut buffer = BinaryBuffer::<3>::new(Size::new(24, 1));
    buffer
        .fill_solid(&Rectangle::new(Point::new(3, 0), Size::new(3, 1)), BinaryColor::On)
        .unwrap();
    assert_eq!(buffer.data(), &[0b00011100, 0, 0]);

    let mut buffer = BinaryBuffer::<3>::new(Size::new(24, 1));
    buffer
        .fill_solid(&Rectangle::new(Point::new(5, 0), Size::new(14, 1)), BinaryColor::On)
        .unwrap();
    assert_eq!(buffer.data(), &[0b00000111, 0b11111111, 0b11100000]);
}

#[test]
fn fill_solid_matches_fill_contiguous() {
    let area = Rectangle::new(Point::new(-3, 1), Size::new(19, 5));
    let mut solid = BinaryBuffer::<24>::new(Size::new(24, 8));
    let mut contiguous = BinaryBuffer::<24>::new(Size::new(24, 8));
    solid.fill_solid(&area, BinaryColor::On).unwrap();
    contiguous.fill_contiguous(&area, &[BinaryColor::On; 19 * 5]).unwrap();
    assert_eq!(solid.data(), contiguous.data());

    solid.fill_solid(&area, BinaryColor::Off).unwrap();
    assert!(solid.data().iter().all(|b| *b == 0));
}

#[test]
fn fill_solid_clips_to_buffer() {
    // If the area were not clipped, these writes would land on other rows.
    let mut buffer = BinaryBuffer::<4>::new(Size::new(16, 2));
    buffer
        .fill_solid(&Rectangle::new(Point::new(12, -1), Size::new(10, 2)), BinaryColor::On)
        .unwrap();
    assert_eq!(buffer.data(), &[0b00000000, 0b00001111, 0, 0]);
}

#[test]
fn fill_contiguous_stops_when_colours_run_out() {
    let mut buffer = BinaryBuffer::<2>::new(Size::new(8, 2));
    buffer
        .fill_contiguous(
            &Rectangle::new(Point::new(0, 0), Size::new(8, 2)),
            &[BinaryColor::On, BinaryColor::Off, BinaryColor::On],
        )
        .unwrap();
    assert_eq!(buffer.data(), &[0b10100000, 0]);
}

#[test]
fn later_pixels_win() {
    let mut buffer = BinaryBuffer::<1>::new(Size::new(8, 1));
    buffer
        .draw_iter(&[
            Pixel(Point::new(4, 0), BinaryColor::On),
            Pixel(Point::new(4, 0), BinaryColor::Off),
            Pixel(Point::new(5, 0), BinaryColor::Off),
            Pixel(Point::new(5, 0), BinaryColor::On),
        ])
        .unwrap();
    assert_eq!(buffer.data(), &[0b00000100]);
}

#[test]
fn gray2_values() {
    assert_eq!(Gray2::new(0).luma(), 0);
    assert_eq!(Gray2::new(2).luma(), 2);
    assert_eq!(Gray2::new(3).luma(), 3);
    assert_eq!(Gray2::new(7).luma(), 3);
    assert_eq!(Gray2::new(0xFE).luma(), 2);
    assert!(BinaryColor::On.is_on());
    assert_eq!(BinaryColor::On.invert(), BinaryColor::Off);
    assert_eq!(BinaryColor::Off.invert(), BinaryColor::On);
}

#[test]
fn gray2_split_into_low_and_high_planes() {
    let mut buffer = Gray2SplitBuffer::<1>::new(Size::new(8, 1));
    buffer
        .draw_iter(&[
            Pixel(Point::new(0, 0), Gray2::new(0)),
            Pixel(Point::new(1, 0), Gray2::new(1)),
            Pixel(Point::new(2, 0), Gray2::new(2)),
            Pixel(Point::new(3, 0), Gray2::new(3)),
        ])
        .unwrap();
    assert_eq!(buffer.low.data(), &[0b01010000]);
    assert_eq!(buffer.high.data(), &[0b00110000]);
}

#[test]
fn gray2_draw_more_than_one_chunk() {
    let mut buffer = Gray2SplitBuffer::<50>::new(Size::new(200, 2));
    let pixels: Vec<Pixel<Gray2>> = (0..400)
        .map(|i| Pixel(Point::new(i % 200, i / 200), Gray2::new(3)))
        .collect();
    buffer.draw_iter(&pixels).unwrap();
    assert!(buffer.low.data().iter().all(|b| *b == 0xFF));
    assert!(buffer.high.data().iter().all(|b| *b == 0xFF));
}

#[test]
fn split_low_and_high_bytes() {
    assert_eq!(split_low_and_high(0x1234), (0x34, 0x12));
    assert_eq!(split_low_and_high(0x00FF), (0xFF, 0x00));
    assert_eq!(split_low_and_high(0xFFFF), (0xFF, 0xFF));
}

#[test]
fn invert_bytes_complements() {
    assert_eq!(invert_bytes(&[0x00, 0xF0, 0x5A]), vec![0xFF, 0x0F, 0xA5]);
    assert!(invert_bytes(&[]).is_empty());
}

#[test]
fn busy_wait_targets() {
    assert_eq!(busy_wait_target(PinState::High, true), Some(PinState::Low));
    assert_eq!(busy_wait_target(PinState::High, false), None);
    assert_eq!(busy_wait_target(PinState::Low, false), Some(PinState::High));
    assert_eq!(busy_wait_target(PinState::Low, true), None);
}

#[test]
fn bus_operations_for_a_command() {
    assert_eq!(
        send_ops(0),
        vec![BusOp::WaitIfBusy, BusOp::SetDc(PinState::Low), BusOp::WriteCommand]
    );
    assert_eq!(
        send_ops(3),
        vec![
            BusOp::WaitIfBusy,
            BusOp::SetDc(PinState::Low),
            BusOp::WriteCommand,
            BusOp::SetDc(PinState::High),
            BusOp::WriteData,
        ]
    );
    assert_eq!(send_stream_ops(true), send_ops(1));
    assert_eq!(send_stream_ops(false), send_ops(0));
}

#[test]
fn rotation_round_trips() {
    let bounds = Size::new(10, 4);
    for rotation in [Rotate::Degrees90, Rotate::Degrees180, Rotate::Degrees270] {
        assert_eq!(rotation.inverse().inverse(), rotation);
        let rotated_bounds = rotation.rotate_size(bounds);
        assert_eq!(rotation.inverse().rotate_size(rotated_bounds), bounds);
        for x in 0..10 {
            for y in 0..4 {
                let p = Point::new(x, y);
                let q = rotation.rotate_point(p, bounds);
                assert!(q.x >= 0 && q.y >= 0);
                assert!((q.x as u32) < rotated_bounds.width && (q.y as u32) < rotated_bounds.height);
                assert_eq!(rotation.inverse().rotate_point(q, rotated_bounds), p);
            }
        }
        let rect = Rectangle::new(Point::new(2, 1), Size::new(5, 3));
        let rotated = rotation.rotate_rectangle(rect, bounds);
        assert_eq!(rotated.size, rotation.rotate_size(rect.size));
        assert_eq!(rotation.inverse().rotate_rectangle(rotated, rotated_bounds), rect);
    }
}

#[test]
fn rotated_drawing_lands_on_rotated_point() {
    let size = Size::new(8, 4);
    for rotation in [Rotate::Degrees90, Rotate::Degrees180, Rotate::Degrees270] {
        let mut rotated = RotatedBuffer::new(BinaryBuffer::<4>::new(size), rotation);
        let bounds = rotated.bounding_box();
        let p = Point::new(1, 2);
        rotated.draw_iter(&[Pixel(p, BinaryColor::On)]).unwrap();

        let mut direct = BinaryBuffer::<4>::new(size);
        direct
            .draw_iter(&[Pixel(rotation.rotate_point(p, bounds.size), BinaryColor::On)])
            .unwrap();
        assert_eq!(rotated.inner().data(), direct.data());
    }
}

#[test]
fn rotated_fill_solid_matches_rotated_rectangle() {
    let size = Size::new(16, 8);
    let area = Rectangle::new(Point::new(1, 2), Size::new(3, 5));
    for rotation in [Rotate::Degrees90, Rotate::Degrees180, Rotate::Degrees270] {
        let mut rotated = RotatedBuffer::new(BinaryBuffer::<16>::new(size), rotation);
        let bounds = rotated.bounding_box();
        rotated.fill_solid(&area, BinaryColor::On).unwrap();

        let mut direct = BinaryBuffer::<16>::new(size);
        direct
            .fill_solid(&rotation.rotate_rectangle(area, bounds.size), BinaryColor::On)
            .unwrap();
        assert_eq!(rotated.take_inner().data(), direct.data());
    }
}

#[test]
fn rectangle_range_check() {
    assert!(Rectangle::new(Point::new(0, 0), Size::new(800, 480)).in_range());
    assert!(Rectangle::new(Point::new(i32::MAX, 0), Size::new(0, 5)).in_range());
    assert!(!Rectangle::new(Point::new(i32::MAX, 0), Size::new(1, 1)).in_range());
    assert!(!Rectangle::new(Point::new(0, 0), Size::new(u32::MAX, 1)).in_range());
    assert_eq!(
        Rectangle::new(Point::new(2, 3), Size::new(4, 5)).bottom_right(),
        Some(Point::new(5, 7))
    );
    assert_eq!(Rectangle::new(Point::new(2, 3), Size::new(0, 5)).bottom_right(), None);
}

#[test]
fn rotated_rectangle_is_the_image_of_the_rectangle() {
    let bounds = Size::new(10, 4);
    let rect = Rectangle::new(Point::new(2, 1), Size::new(5, 3));
    for rotation in [Rotate::Degrees90, Rotate::Degrees180, Rotate::Degrees270] {
        let rotated = rotation.rotate_rectangle(rect, bounds);
        let mut images = Vec::new();
        for x in 2..7 {
            for y in 1..4 {
                images.push(rotation.rotate_point(Point::new(x, y), bounds));
            }
        }
        for x in rotated.top_left.x..rotated.top_left.x + rotated.size.width as i32 {
            for y in rotated.top_left.y..rotated.top_left.y + rotated.size.height as i32 {
                assert!(images.contains(&Point::new(x, y)));
            }
        }
        assert_eq!(images.len() as u32, rotated.size.width * rotated.size.height);
    }
}

#[test]
fn gray2_planes_match_drawing_each_bit() {
    let size = Size::new(16, 3);
    let pixels: Vec<Pixel<Gray2>> = (0..300)
        .map(|i| Pixel(Point::new(i % 19 - 1, (i / 7) % 4 - 1), Gray2::new((i % 5) as u8)))
        .collect();
    let mut gray = Gray2SplitBuffer::<6>::new(size);
    gray.draw_iter(&pixels).unwrap();

    let low: Vec<Pixel<BinaryColor>> = pixels
        .iter()
        .map(|Pixel(p, g)| Pixel(*p, if g.luma() & 1 == 1 { BinaryColor::On } else { BinaryColor::Off }))
        .collect();
    let high: Vec<Pixel<BinaryColor>> = pixels
        .iter()
        .map(|Pixel(p, g)| Pixel(*p, if g.luma() & 2 == 2 { BinaryColor::On } else { BinaryColor::Off }))
        .collect();
    let mut low_plane = BinaryBuffer::<6>::new(size);
    let mut high_plane = BinaryBuffer::<6>::new(size);
    low_plane.draw_iter(&low).unwrap();
    high_plane.draw_iter(&high).unwrap();
    assert_eq!(gray.low.data(), low_plane.data());
    assert_eq!(gray.high.data(), high_plane.data());
}
