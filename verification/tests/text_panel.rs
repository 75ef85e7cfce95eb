use epd_display::display_cmd::{
    body_line_origin, floor_char_boundary, DisplayCmd, TextLine, TextPanelContent,
};
use epd_display::geometry::Point;
use epd_display::three_color::ThreeColor;

fn line(text: &str) -> TextLine {
    TextLine::new(text, ThreeColor::Black)
}

#[test]
fn a_short_line_keeps_its_text_and_color() {
    let title = TextLine::new("Display server connected", ThreeColor::Chromatic);
    assert_eq!(title.text(), "Display server connected");
    assert_eq!(title.color(), ThreeColor::Chromatic);
    assert_eq!(line("").text(), "");
}

#[test]
fn a_line_of_eighty_bytes_is_kept_whole() {
    let text = "x".repeat(80);
    assert_eq!(line(&text).text(), text);
}

#[test]
fn a_line_of_more_than_eighty_bytes_is_cut_after_eighty() {
    let text = "0123456789".repeat(9);
    assert_eq!(line(&text).text(), &text[..80]);
    let text = "x".repeat(81);
    assert_eq!(line(&text).text().len(), 80);
    let text = "y".repeat(10_000);
    assert_eq!(line(&text).text(), "y".repeat(80));
}

#[test]
fn a_long_line_is_cut_between_characters() {
    // 79 bytes, then a character of two bytes that straddles the limit
    let text = format!("{}é and more", "x".repeat(79));
    assert_eq!(line(&text).text(), "x".repeat(79));
    // 78 bytes, then the same character, which fits
    let text = format!("{}é and more", "x".repeat(78));
    assert_eq!(line(&text).text(), format!("{}é", "x".repeat(78)));
    // characters of three and of four bytes
    let text = "€".repeat(30);
    assert_eq!(line(&text).text(), "€".repeat(26));
    let text = "🦀".repeat(21);
    assert_eq!(line(&text).text(), "🦀".repeat(20));
    let text = format!("x{}", "🦀".repeat(21));
    assert_eq!(line(&text).text(), format!("x{}", "🦀".repeat(19)));
}

#[test]
fn the_floor_is_the_last_boundary_not_past_the_index() {
    let text = "aé€🦀z";
    // boundaries: 0 a 1 é 3 € 6 🦀 10 z 11
    let expected = [0, 1, 1, 3, 3, 3, 6, 6, 6, 6, 10, 11, 11, 11];
    for (index, boundary) in expected.into_iter().enumerate() {
        assert_eq!(floor_char_boundary(text, index), boundary, "index {index}");
    }
    assert_eq!(floor_char_boundary(text, usize::MAX), 11);
    assert_eq!(floor_char_boundary("", 0), 0);
    assert_eq!(floor_char_boundary("", 5), 0);
}

#[test]
fn the_floor_agrees_with_the_standard_library() {
    for text in ["", "plain", "añb", "日本語のテキスト", "🦀🦀", "mixed é € 🦀 text"] {
        for index in 0..text.len() + 3 {
            assert_eq!(
                floor_char_boundary(text, index),
                text.floor_char_boundary(index),
                "{text:?} at {index}"
            );
        }
    }
}

#[test]
fn a_new_panel_has_its_title_and_no_lines() {
    let content = TextPanelContent::new(TextLine::new("Title", ThreeColor::Chromatic));
    assert_eq!(content.title().text(), "Title");
    assert_eq!(content.title().color(), ThreeColor::Chromatic);
    assert_eq!(content.body_len(), 0);
    assert!(content.body_line(0).is_none());
}

#[test]
fn lines_are_kept_in_the_order_they_were_added() {
    let mut content = TextPanelContent::new(line("t"));
    assert_eq!(content.add_body_line(line("first")), Ok(()));
    assert_eq!(content.add_body_line(TextLine::new("second", ThreeColor::White)), Ok(()));
    assert_eq!(content.body_len(), 2);
    assert_eq!(content.body_line(0).unwrap().text(), "first");
    assert_eq!(content.body_line(0).unwrap().color(), ThreeColor::Black);
    assert_eq!(content.body_line(1).unwrap().text(), "second");
    assert_eq!(content.body_line(1).unwrap().color(), ThreeColor::White);
    assert!(content.body_line(2).is_none());
    assert!(content.body_line(usize::MAX).is_none());
    assert_eq!(content.title().text(), "t");
}

#[test]
fn an_eleventh_line_is_refused() {
    let mut content = TextPanelContent::new(line("t"));
    for i in 0..10 {
        assert_eq!(content.add_body_line(line(&format!("line {i}"))), Ok(()));
    }
    assert_eq!(content.body_len(), 10);
    assert_eq!(content.add_body_line(line("one too many")), Err(()));
    assert_eq!(content.add_body_line(line("and another")), Err(()));
    assert_eq!(content.body_len(), 10);
    for i in 0..10 {
        assert_eq!(content.body_line(i).unwrap().text(), format!("line {i}"));
    }
    assert!(content.body_line(10).is_none());
}

#[test]
fn a_message_becomes_a_panel_in_black() {
    let long = "z".repeat(100);
    let content = TextPanelContent::from_message("Hello", &["one", &long, ""]).unwrap();
    assert_eq!(content.title().text(), "Hello");
    assert_eq!(content.title().color(), ThreeColor::Black);
    assert_eq!(content.body_len(), 3);
    assert_eq!(content.body_line(0).unwrap().text(), "one");
    assert_eq!(content.body_line(1).unwrap().text(), "z".repeat(80));
    assert_eq!(content.body_line(2).unwrap().text(), "");
    for i in 0..3 {
        assert_eq!(content.body_line(i).unwrap().color(), ThreeColor::Black);
    }
}

#[test]
fn a_message_without_lines_becomes_a_panel_with_a_title_only() {
    let content = TextPanelContent::from_message("Only a title", &[]).unwrap();
    assert_eq!(content.title().text(), "Only a title");
    assert_eq!(content.body_len(), 0);
}

#[test]
fn a_message_of_ten_lines_fits_and_one_of_eleven_does_not() {
    let ten = ["a"; 10];
    let content = TextPanelContent::from_message("t", &ten).unwrap();
    assert_eq!(content.body_len(), 10);
    let eleven = ["a"; 11];
    assert!(TextPanelContent::from_message("t", &eleven).is_none());
}

#[test]
fn a_command_carries_its_panel() {
    let command = DisplayCmd::TextPanel(TextPanelContent::new(line("t")));
    match command {
        DisplayCmd::TextPanel(content) => assert_eq!(content.title().text(), "t"),
        DisplayCmd::Nothing => panic!("the command lost its panel"),
    }
    assert!(matches!(DisplayCmd::Nothing, DisplayCmd::Nothing));
}

#[test]
fn lines_are_laid_out_22_pixels_apart() {
    assert_eq!(body_line_origin(0), Some(Point::new(2, 55)));
    assert_eq!(body_line_origin(1), Some(Point::new(2, 77)));
    assert_eq!(body_line_origin(9), Some(Point::new(2, 253)));
    // 55 + 22 * 97612890 = 2147483635, and one line further is past the largest number
    assert_eq!(body_line_origin(97_612_890), Some(Point::new(2, 2_147_483_635)));
    assert_eq!(body_line_origin(97_612_891), None);
    assert_eq!(body_line_origin(usize::MAX), None);
}
