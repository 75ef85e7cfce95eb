use epd_display::display_orientation::DisplayOrientation;
use epd_display::epd_2in66b::{Epd2in66b, Phase, WaitStep};
use epd_display::epd_spi::{BusOp, Level};
use epd_display::geometry::{Pixel, Point};
use epd_display::three_color::ThreeColor;

fn bit(plane: &[u8], x: usize, y: usize) -> bool {
    plane[(y * 152 + x) / 8] & (1 << (7 - x % 8)) != 0
}

fn bits(display: &Epd2in66b, x: usize, y: usize) -> (bool, bool) {
    (
        bit(&display.bw_buffer().buffer, x, y),
        bit(&display.chromatic_buffer().buffer, x, y),
    )
}

fn ones(plane: &[u8]) -> u32 {
    plane.iter().map(|byte| byte.count_ones()).sum()
}

/// The bytes that were sent as data of the command `opcode`.
fn data_of(ops: &[BusOp], opcode: u8) -> Vec<u8> {
    for (i, op) in ops.iter().enumerate() {
        if *op == BusOp::Write(vec![opcode]) && ops[i - 1] == BusOp::DataCommand(Level::Low) {
            assert_eq!(ops[i + 1], BusOp::DataCommand(Level::High));
            match &ops[i + 2] {
                BusOp::Write(data) => return data.clone(),
                other => panic!("no data after the command: {other:?}"),
            }
        }
    }
    panic!("command {opcode:#x} was not sent")
}

/// Carries a request out as the owner of the wires would, with a panel that is busy for a
/// while after each command it has to work on.
fn carry_out(display: &mut Epd2in66b) -> Vec<BusOp> {
    let mut sent = display.take_ops();
    let mut busy_for = 3;
    while display.is_waiting() {
        let reading = Some(busy_for > 0);
        match display.poll_busy(reading) {
            WaitStep::Sleep(millis) => {
                assert_eq!(millis, 10);
                busy_for -= 1;
            }
            WaitStep::Done => sent.extend(display.take_ops()),
            WaitStep::TimedOut => panic!("the wait has no limit"),
        }
    }
    sent
}

#[test]
fn the_colors_have_the_documented_bits() {
    assert_eq!((ThreeColor::White.bw_bit(), ThreeColor::White.chromatic_bit()), (true, false));
    assert_eq!((ThreeColor::Black.bw_bit(), ThreeColor::Black.chromatic_bit()), (false, false));
    assert_eq!(
        (ThreeColor::Chromatic.bw_bit(), ThreeColor::Chromatic.chromatic_bit()),
        (false, true)
    );
}

#[test]
fn a_new_driver_shows_the_backdrop() {
    let display = Epd2in66b::new();
    assert!(display.bw_buffer().buffer.iter().all(|byte| *byte == 0xff));
    assert!(display.chromatic_buffer().buffer.iter().all(|byte| *byte == 0x00));
}

#[test]
fn clear_gives_all_ff_and_all_00() {
    let mut display = Epd2in66b::new();
    display.draw_iter(&[
        Pixel(Point::new(3, 4), ThreeColor::Black),
        Pixel(Point::new(30, 40), ThreeColor::Chromatic),
    ]);
    assert!(display.bw_buffer().buffer.iter().any(|byte| *byte != 0xff));
    assert!(display.chromatic_buffer().buffer.iter().any(|byte| *byte != 0x00));
    display.clear();
    assert!(display.bw_buffer().buffer.iter().all(|byte| *byte == 0xff));
    assert!(display.chromatic_buffer().buffer.iter().all(|byte| *byte == 0x00));
    assert_eq!(display.bw_buffer().buffer.len(), 5624);
    assert_eq!(display.chromatic_buffer().buffer.len(), 5624);
}

#[test]
fn clear_touches_neither_the_panel_nor_the_phase() {
    let mut display = Epd2in66b::new();
    display.init();
    display.clear();
    assert_eq!(display.take_ops().len(), 8);
    assert!(display.is_waiting());
    assert_eq!(display.phase(), Phase::Uninitialized);
}

#[test]
fn each_color_sets_its_bits_at_the_transformed_point() {
    // landscape: (2, 20) is the panel's pixel (20, 293)
    let point = Point::new(2, 20);
    let mut display = Epd2in66b::new();

    display.draw_pixel(Pixel(point, ThreeColor::Black));
    assert_eq!(bits(&display, 20, 293), (false, false));
    assert_eq!(ones(&display.bw_buffer().buffer), 5624 * 8 - 1);
    assert_eq!(ones(&display.chromatic_buffer().buffer), 0);

    display.draw_pixel(Pixel(point, ThreeColor::Chromatic));
    assert_eq!(bits(&display, 20, 293), (false, true));
    assert_eq!(ones(&display.bw_buffer().buffer), 5624 * 8 - 1);
    assert_eq!(ones(&display.chromatic_buffer().buffer), 1);

    display.draw_pixel(Pixel(point, ThreeColor::White));
    assert_eq!(bits(&display, 20, 293), (true, false));
    assert_eq!(ones(&display.bw_buffer().buffer), 5624 * 8);
    assert_eq!(ones(&display.chromatic_buffer().buffer), 0);
}

#[test]
fn the_drawn_bit_lies_in_the_documented_byte() {
    let mut display = Epd2in66b::new();
    display.draw_pixel(Pixel(Point::new(2, 20), ThreeColor::Chromatic));
    // pixel (20, 293): byte (293 * 152 + 20) / 8 = 5569, bit 7 - 20 % 8 = 3
    assert_eq!(display.chromatic_buffer().buffer[5569], 0b0000_1000);
    assert_eq!(display.bw_buffer().buffer[5569], 0b1111_0111);
}

#[test]
fn drawing_follows_the_orientation() {
    for (orientation, x, y) in [
        (DisplayOrientation::Portrait, 5usize, 7usize),
        (DisplayOrientation::Landscape, 7, 290),
        (DisplayOrientation::LandscapeFlipped, 144, 5),
        (DisplayOrientation::PortraitFlipped, 146, 288),
    ] {
        let mut display = Epd2in66b::new();
        display.set_orientation(orientation);
        display.draw_pixel(Pixel(Point::new(5, 7), ThreeColor::Chromatic));
        assert_eq!(bits(&display, x, y), (false, true), "{orientation:?}");
        assert_eq!(ones(&display.chromatic_buffer().buffer), 1, "{orientation:?}");
        assert_eq!(ones(&display.bw_buffer().buffer), 5624 * 8 - 1, "{orientation:?}");
    }
}

#[test]
fn turning_the_picture_leaves_what_is_drawn() {
    let mut display = Epd2in66b::new();
    display.draw_pixel(Pixel(Point::new(5, 7), ThreeColor::Black));
    let before = display.bw_buffer().buffer;
    display.set_orientation(DisplayOrientation::Portrait);
    assert_eq!(display.bw_buffer().buffer, before);
}

#[test]
fn points_outside_the_picture_are_dropped() {
    for orientation in [
        DisplayOrientation::Portrait,
        DisplayOrientation::Landscape,
        DisplayOrientation::PortraitFlipped,
        DisplayOrientation::LandscapeFlipped,
    ] {
        let mut display = Epd2in66b::new();
        display.set_orientation(orientation);
        let (w, h) = (display.width() as i32, display.height() as i32);
        let outside = [
            Point::new(-1, 0),
            Point::new(0, -1),
            Point::new(w, 0),
            Point::new(0, h),
            Point::new(w, h),
            Point::new(i32::MAX, i32::MAX),
            Point::new(i32::MIN, i32::MIN),
            Point::new(i32::MIN, 0),
            Point::new(0, i32::MIN),
            Point::new(i32::MAX, 0),
            Point::new(0, i32::MAX),
        ];
        for point in outside {
            for color in [ThreeColor::Black, ThreeColor::Chromatic, ThreeColor::White] {
                display.draw_pixel(Pixel(point, color));
            }
        }
        assert!(display.bw_buffer().buffer.iter().all(|byte| *byte == 0xff), "{orientation:?}");
        assert!(
            display.chromatic_buffer().buffer.iter().all(|byte| *byte == 0x00),
            "{orientation:?}"
        );
    }
}

#[test]
fn the_last_pixel_of_the_picture_is_drawn() {
    let mut display = Epd2in66b::new();
    display.draw_pixel(Pixel(Point::new(295, 151), ThreeColor::Black));
    assert_eq!(bits(&display, 151, 0), (false, false));
    assert_eq!(ones(&display.bw_buffer().buffer), 5624 * 8 - 1);
}

#[test]
fn pixels_are_drawn_in_the_order_given() {
    let mut display = Epd2in66b::new();
    display.draw_iter(&[
        Pixel(Point::new(0, 0), ThreeColor::Black),
        Pixel(Point::new(1, 0), ThreeColor::Black),
        Pixel(Point::new(-5, 0), ThreeColor::Black),
        Pixel(Point::new(0, 0), ThreeColor::Chromatic),
    ]);
    // (0, 0) is the panel's pixel (0, 295), (1, 0) is (0, 294)
    assert_eq!(bits(&display, 0, 295), (false, true));
    assert_eq!(bits(&display, 0, 294), (false, false));
    assert_eq!(ones(&display.bw_buffer().buffer), 5624 * 8 - 2);
    assert_eq!(ones(&display.chromatic_buffer().buffer), 1);
}

#[test]
fn drawing_no_pixels_changes_nothing() {
    let mut display = Epd2in66b::new();
    display.draw_iter(&[]);
    assert!(display.bw_buffer().buffer.iter().all(|byte| *byte == 0xff));
    assert!(display.chromatic_buffer().buffer.iter().all(|byte| *byte == 0x00));
}

#[test]
fn drawing_sends_nothing() {
    let mut display = Epd2in66b::new();
    display.draw_pixel(Pixel(Point::new(1, 1), ThreeColor::Black));
    display.draw_iter(&[Pixel(Point::new(2, 2), ThreeColor::Chromatic)]);
    assert_eq!(display.take_ops(), vec![]);
    assert_eq!(display.phase(), Phase::Uninitialized);
}

#[test]
fn every_pixel_of_the_picture_can_be_given_every_color() {
    let mut display = Epd2in66b::new();
    let mut pixels = Vec::new();
    for y in 0..152 {
        for x in 0..296 {
            let color = match (x + 2 * y) % 3 {
                0 => ThreeColor::Black,
                1 => ThreeColor::White,
                _ => ThreeColor::Chromatic,
            };
            pixels.push(Pixel(Point::new(x, y), color));
        }
    }
    display.draw_iter(&pixels);
    for Pixel(point, color) in pixels {
        let physical = display.convert_point(point).unwrap();
        assert_eq!(
            bits(&display, physical.x as usize, physical.y as usize),
            (color.bw_bit(), color.chromatic_bit()),
            "{point:?}"
        );
    }
}

#[test]
fn a_white_pixel_drawn_after_init_is_streamed_by_refresh() {
    let mut display = Epd2in66b::new();
    assert_eq!(display.orientation(), DisplayOrientation::Landscape);
    display.init();
    carry_out(&mut display);
    assert_eq!(display.phase(), Phase::Ready);

    display.draw_iter(&[Pixel(Point::new(0, 0), ThreeColor::White)]);
    display.refresh();
    let sent = carry_out(&mut display);
    assert_eq!(display.phase(), Phase::Ready);

    // landscape: (0, 0) is the panel's pixel (0, 295)
    let bw = data_of(&sent, 0x24);
    let chromatic = data_of(&sent, 0x26);
    assert_eq!(bw.len(), 5624);
    assert_eq!(chromatic.len(), 5624);
    assert!(bit(&bw, 0, 295));
    assert_eq!(bw[(295 * 152) / 8] & 0x80, 0x80);
    assert!(chromatic.iter().all(|byte| *byte == 0));
    // the backdrop is white, so every other pixel is white too
    assert!(bw.iter().all(|byte| *byte == 0xff));
}

#[test]
fn a_single_pixel_on_an_emptied_picture_is_the_only_bit_streamed() {
    let mut display = Epd2in66b::new();
    display.init();
    carry_out(&mut display);

    // black everywhere, then one white pixel
    let mut black = Vec::new();
    for y in 0..152 {
        for x in 0..296 {
            black.push(Pixel(Point::new(x, y), ThreeColor::Black));
        }
    }
    display.draw_iter(&black);
    display.draw_iter(&[Pixel(Point::new(0, 0), ThreeColor::White)]);
    display.refresh();
    let sent = carry_out(&mut display);

    let bw = data_of(&sent, 0x24);
    let chromatic = data_of(&sent, 0x26);
    assert_eq!(ones(&bw), 1);
    assert!(bit(&bw, 0, 295));
    assert_eq!(bw[5605], 0x80);
    assert!(chromatic.iter().all(|byte| *byte == 0));
}

#[test]
fn a_single_black_pixel_is_the_only_bit_missing_from_the_stream() {
    let mut display = Epd2in66b::new();
    display.init();
    carry_out(&mut display);
    display.draw_iter(&[Pixel(Point::new(0, 0), ThreeColor::Black)]);
    display.refresh();
    let sent = carry_out(&mut display);

    let bw = data_of(&sent, 0x24);
    assert_eq!(ones(&bw), 5624 * 8 - 1);
    assert!(!bit(&bw, 0, 295));
    assert!(data_of(&sent, 0x26).iter().all(|byte| *byte == 0));
}

#[test]
fn refresh_streams_the_picture_as_it_is_when_it_begins() {
    let mut display = Epd2in66b::new();
    display.init();
    carry_out(&mut display);
    display.draw_pixel(Pixel(Point::new(0, 0), ThreeColor::Chromatic));
    display.refresh();
    // drawn while the panel renders: part of the next refresh only
    display.draw_pixel(Pixel(Point::new(1, 0), ThreeColor::Chromatic));
    let sent = carry_out(&mut display);
    assert_eq!(ones(&data_of(&sent, 0x26)), 1);

    display.refresh();
    let sent = carry_out(&mut display);
    assert_eq!(ones(&data_of(&sent, 0x26)), 2);
}
