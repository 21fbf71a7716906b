use x_pixiv::layout::{
    cursor_column, gauge_area, item_area, pad, popup_area, rank_line, tone_of_border, tone_of_mark,
    Area, Tone,
};
use x_pixiv::sweep::Mark;

#[test]
fn popup_is_half_the_screen_in_its_middle() {
    assert_eq!(popup_area(80, 24), Area { x: 20, y: 6, width: 40, height: 12 });
    assert_eq!(popup_area(81, 25), Area { x: 20, y: 6, width: 40, height: 12 });
    assert_eq!(popup_area(0, 0), Area { x: 0, y: 0, width: 0, height: 0 });
    assert_eq!(popup_area(1, 1), Area { x: 0, y: 0, width: 0, height: 0 });
}

#[test]
fn gauges_are_stacked_from_the_lower_right_corner() {
    assert_eq!(gauge_area(80, 24, 0), Some(Area { x: 55, y: 20, width: 20, height: 3 }));
    assert_eq!(gauge_area(80, 24, 1), Some(Area { x: 55, y: 16, width: 20, height: 3 }));
    assert_eq!(gauge_area(80, 24, 5), Some(Area { x: 55, y: 0, width: 20, height: 3 }));
    assert_eq!(gauge_area(80, 24, 6), None);
    assert_eq!(gauge_area(25, 4, 0), Some(Area { x: 0, y: 0, width: 20, height: 3 }));
    assert_eq!(gauge_area(24, 24, 0), None);
    assert_eq!(gauge_area(80, 3, 0), None);
    assert_eq!(gauge_area(u16::MAX, u16::MAX, 16382), Some(Area { x: 65510, y: 3, width: 20, height: 3 }));
    assert_eq!(gauge_area(u16::MAX, u16::MAX, 16383), None);
    assert_eq!(gauge_area(u16::MAX, u16::MAX, usize::MAX), None);
}

#[test]
fn items_stand_below_each_other() {
    let inside = Area { x: 21, y: 7, width: 38, height: 10 };
    assert_eq!(item_area(inside, 0), Some(Area { x: 21, y: 7, width: 38, height: 3 }));
    assert_eq!(item_area(inside, 1), Some(Area { x: 21, y: 10, width: 38, height: 3 }));
    assert_eq!(item_area(inside, 21842), Some(Area { x: 21, y: 65533, width: 38, height: 3 }));
    assert_eq!(item_area(inside, 21843), None);
    assert_eq!(item_area(inside, usize::MAX), None);
}

#[test]
fn cursor_stands_behind_the_text() {
    assert_eq!(cursor_column(10, 0), 11);
    assert_eq!(cursor_column(10, 5), 16);
    assert_eq!(cursor_column(65530, 3), 65534);
    assert_eq!(cursor_column(65530, 4), 65535);
    assert_eq!(cursor_column(65530, 400), 65535);
    assert_eq!(cursor_column(0, usize::MAX), 65535);
}

#[test]
fn tones() {
    assert_eq!(tone_of_border(true, true), Tone::Alert);
    assert_eq!(tone_of_border(true, false), Tone::Alert);
    assert_eq!(tone_of_border(false, false), Tone::Bright);
    assert_eq!(tone_of_border(false, true), Tone::Dim);
    assert_eq!(tone_of_mark(Mark::Failed), Tone::Alert);
    assert_eq!(tone_of_mark(Mark::Downloading), Tone::Busy);
    assert_eq!(tone_of_mark(Mark::Succeeded), Tone::Plain);
    assert_eq!(tone_of_mark(Mark::Untouched), Tone::Plain);
}

#[test]
fn pad_fills_with_blanks() {
    assert_eq!(pad("7".to_string(), 3), "7  ");
    assert_eq!(pad("123".to_string(), 3), "123");
    assert_eq!(pad("1234".to_string(), 3), "1234");
    assert_eq!(pad(String::new(), 2), "  ");
}

#[test]
fn rank_line_shows_rank_title_and_address() {
    assert_eq!(rank_line(1, "Sky", 42), "1   |Sky https://www.pixiv.net/artworks/42");
    assert_eq!(rank_line(50, "Sea", 7), "50  |Sea https://www.pixiv.net/artworks/7");
    assert_eq!(rank_line(500, "", 7), "500 | https://www.pixiv.net/artworks/7");
    assert_eq!(rank_line(1000, "x", 0), "1000 |x https://www.pixiv.net/artworks/0");
}
