use epd_display::display_orientation::DisplayOrientation;
use epd_display::epd_2in66b::Epd2in66b;
use epd_display::geometry::{Point, Rectangle, Size};

const ALL: [DisplayOrientation; 4] = [
    DisplayOrientation::Portrait,
    DisplayOrientation::Landscape,
    DisplayOrientation::PortraitFlipped,
    DisplayOrientation::LandscapeFlipped,
];

fn turned(orientation: DisplayOrientation) -> Epd2in66b {
    let mut display = Epd2in66b::new();
    display.set_orientation(orientation);
    display
}

#[test]
fn a_new_driver_shows_the_picture_in_landscape() {
    let display = Epd2in66b::new();
    assert_eq!(display.orientation(), DisplayOrientation::Landscape);
    assert_eq!(display.width(), 296);
    assert_eq!(display.height(), 152);
}

#[test]
fn landscape_maps_2_20_to_20_293() {
    let display = turned(DisplayOrientation::Landscape);
    assert_eq!(display.convert_point(Point::new(2, 20)), Some(Point::new(20, 293)));
}

#[test]
fn each_orientation_follows_its_formula() {
    let point = Point::new(2, 20);
    assert_eq!(
        turned(DisplayOrientation::Portrait).convert_point(point),
        Some(Point::new(2, 20))
    );
    assert_eq!(
        turned(DisplayOrientation::Landscape).convert_point(point),
        Some(Point::new(20, 296 - 1 - 2))
    );
    assert_eq!(
        turned(DisplayOrientation::LandscapeFlipped).convert_point(point),
        Some(Point::new(152 - 1 - 20, 2))
    );
    assert_eq!(
        turned(DisplayOrientation::PortraitFlipped).convert_point(point),
        Some(Point::new(152 - 1 - 2, 296 - 1 - 20))
    );
}

#[test]
fn the_corners_of_the_picture_are_the_corners_of_the_panel() {
    let landscape = turned(DisplayOrientation::Landscape);
    assert_eq!(landscape.convert_point(Point::new(0, 0)), Some(Point::new(0, 295)));
    assert_eq!(landscape.convert_point(Point::new(295, 0)), Some(Point::new(0, 0)));
    assert_eq!(landscape.convert_point(Point::new(0, 151)), Some(Point::new(151, 295)));
    assert_eq!(landscape.convert_point(Point::new(295, 151)), Some(Point::new(151, 0)));

    let flipped = turned(DisplayOrientation::LandscapeFlipped);
    assert_eq!(flipped.convert_point(Point::new(0, 0)), Some(Point::new(151, 0)));
    assert_eq!(flipped.convert_point(Point::new(295, 151)), Some(Point::new(0, 295)));

    let upside_down = turned(DisplayOrientation::PortraitFlipped);
    assert_eq!(upside_down.convert_point(Point::new(0, 0)), Some(Point::new(151, 295)));
    assert_eq!(upside_down.convert_point(Point::new(151, 295)), Some(Point::new(0, 0)));
}

#[test]
fn width_and_height_swap_with_the_orientation() {
    assert_eq!(turned(DisplayOrientation::Portrait).width(), 152);
    assert_eq!(turned(DisplayOrientation::Portrait).height(), 296);
    assert_eq!(turned(DisplayOrientation::PortraitFlipped).width(), 152);
    assert_eq!(turned(DisplayOrientation::PortraitFlipped).height(), 296);
    assert_eq!(turned(DisplayOrientation::Landscape).width(), 296);
    assert_eq!(turned(DisplayOrientation::Landscape).height(), 152);
    assert_eq!(turned(DisplayOrientation::LandscapeFlipped).width(), 296);
    assert_eq!(turned(DisplayOrientation::LandscapeFlipped).height(), 152);
}

#[test]
fn every_orientation_maps_the_picture_one_to_one_onto_the_panel() {
    for orientation in ALL {
        let display = turned(orientation);
        let mut hit = vec![false; 152 * 296];
        for y in 0..display.height() as i32 {
            for x in 0..display.width() as i32 {
                let physical = display.convert_point(Point::new(x, y)).unwrap();
                assert!((0..152).contains(&physical.x), "{orientation:?} ({x}, {y})");
                assert!((0..296).contains(&physical.y), "{orientation:?} ({x}, {y})");
                let number = physical.y as usize * 152 + physical.x as usize;
                assert!(!hit[number], "{orientation:?} ({x}, {y}) hits a pixel twice");
                hit[number] = true;
            }
        }
        assert!(hit.iter().all(|pixel| *pixel), "{orientation:?} misses a pixel");
    }
}

#[test]
fn points_next_to_the_picture_fall_off_the_panel() {
    for orientation in ALL {
        let display = turned(orientation);
        let (w, h) = (display.width() as i32, display.height() as i32);
        for point in [
            Point::new(-1, 0),
            Point::new(0, -1),
            Point::new(w, 0),
            Point::new(0, h),
            Point::new(w, h),
        ] {
            let physical = display.convert_point(point).unwrap();
            assert!(
                !((0..152).contains(&physical.x) && (0..296).contains(&physical.y)),
                "{orientation:?} {point:?}"
            );
        }
    }
}

#[test]
fn a_point_whose_image_does_not_fit_32_bits_has_none() {
    let far = Point::new(i32::MIN, i32::MIN);
    assert_eq!(turned(DisplayOrientation::Portrait).convert_point(far), Some(far));
    assert_eq!(turned(DisplayOrientation::Landscape).convert_point(far), None);
    assert_eq!(turned(DisplayOrientation::LandscapeFlipped).convert_point(far), None);
    assert_eq!(turned(DisplayOrientation::PortraitFlipped).convert_point(far), None);
    // 295 - (-2147483352) is the largest number of 32 bits
    assert_eq!(
        turned(DisplayOrientation::Landscape).convert_point(Point::new(-2147483352, 7)),
        Some(Point::new(7, i32::MAX))
    );
    assert_eq!(
        turned(DisplayOrientation::Landscape).convert_point(Point::new(-2147483353, 7)),
        None
    );
}

#[test]
fn the_bounding_box_is_the_panel_whatever_the_orientation() {
    for orientation in ALL {
        assert_eq!(
            turned(orientation).bounding_box(),
            Rectangle::new(Point::zero(), Size::new(152, 296))
        );
    }
}
