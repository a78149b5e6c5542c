use journal::Buffer;
use journal::Cell;
use journal::Popup;
use journal::Rect;
use journal::Style;
use journal::wrap::wrap;

fn chars(s: &str) -> Vec<char> {
    s.chars().collect()
}

fn filled(w: u16, h: u16, glyph: char) -> Buffer {
    Buffer::new(
        w,
        h,
        Cell {
            glyph,
            style: Style::default(),
        },
    )
}

fn glyph_row(buf: &Buffer, y: u16) -> String {
    (0..buf.width).map(|x| buf.get(x, y).glyph).collect()
}

fn lines_of(v: Vec<Vec<char>>) -> Vec<String> {
    v.into_iter().map(|l| l.into_iter().collect()).collect()
}

#[test]
fn wrap_joins_words_with_single_spaces() {
    assert_eq!(lines_of(wrap(&chars("hello   world"), 11)), vec!["hello world"]);
    assert_eq!(lines_of(wrap(&chars("  hi  "), 10)), vec!["hi"]);
}

#[test]
fn wrap_breaks_at_width() {
    assert_eq!(lines_of(wrap(&chars("aa bb cc"), 5)), vec!["aa bb", "cc"]);
    assert_eq!(lines_of(wrap(&chars("one two three"), 7)), vec!["one two", "three"]);
}

#[test]
fn wrap_clips_a_word_longer_than_the_width() {
    assert_eq!(lines_of(wrap(&chars("abcdefgh"), 3)), vec!["abc"]);
    assert_eq!(lines_of(wrap(&chars("abcdefgh xy"), 3)), vec!["abc", "xy"]);
}

#[test]
fn wrap_of_degenerate_width_has_no_lines() {
    assert_eq!(lines_of(wrap(&chars("hi"), 0)), Vec::<String>::new());
    assert_eq!(lines_of(wrap(&chars(""), 5)), Vec::<String>::new());
}

#[test]
fn zero_width_area_paints_nothing() {
    let mut buf = filled(4, 4, '.');
    let p = Popup::default().content(chars("text"));
    p.render(
        Rect { x: 1, y: 1, width: 0, height: 3 },
        &mut buf,
    );
    for y in 0..4 {
        assert_eq!(glyph_row(&buf, y), "....");
    }
}

#[test]
fn zero_height_area_paints_nothing() {
    let mut buf = filled(4, 4, '.');
    let p = Popup::default().title(chars("t"));
    p.render(
        Rect { x: 0, y: 0, width: 4, height: 0 },
        &mut buf,
    );
    for y in 0..4 {
        assert_eq!(glyph_row(&buf, y), "....");
    }
}

#[test]
fn border_is_drawn_with_title_embedded() {
    let mut buf = filled(10, 5, ' ');
    let p = Popup::default().title(chars("Hi"));
    p.render(
        Rect { x: 0, y: 0, width: 10, height: 5 },
        &mut buf,
    );
    assert_eq!(glyph_row(&buf, 0), "┌Hi──────┐");
    assert_eq!(glyph_row(&buf, 1), "│        │");
    assert_eq!(glyph_row(&buf, 2), "│        │");
    assert_eq!(glyph_row(&buf, 3), "│        │");
    assert_eq!(glyph_row(&buf, 4), "└────────┘");
}

#[test]
fn body_text_is_word_wrapped_into_the_interior() {
    let mut buf = filled(9, 5, ' ');
    let p = Popup::default().content(chars("hello world"));
    p.render(
        Rect { x: 0, y: 0, width: 9, height: 5 },
        &mut buf,
    );
    assert_eq!(glyph_row(&buf, 1), "│hello  │");
    assert_eq!(glyph_row(&buf, 2), "│world  │");
    assert_eq!(glyph_row(&buf, 3), "│       │");
}

#[test]
fn overlong_text_is_clipped_to_the_visible_interior() {
    let mut buf = filled(5, 4, ' ');
    let p = Popup::default().content(chars("abcdef ghi jkl"));
    p.render(
        Rect { x: 0, y: 0, width: 5, height: 4 },
        &mut buf,
    );
    assert_eq!(glyph_row(&buf, 0), "┌───┐");
    assert_eq!(glyph_row(&buf, 1), "│abc│");
    assert_eq!(glyph_row(&buf, 2), "│ghi│");
    assert_eq!(glyph_row(&buf, 3), "└───┘");
}

#[test]
fn prior_contents_outside_area_and_under_short_text_are_kept() {
    let mut buf = filled(8, 6, '.');
    let p = Popup::default().content(chars("a"));
    p.render(
        Rect { x: 1, y: 1, width: 5, height: 4 },
        &mut buf,
    );
    assert_eq!(glyph_row(&buf, 0), "........");
    assert_eq!(glyph_row(&buf, 1), ".┌───┐..");
    assert_eq!(glyph_row(&buf, 2), ".│a..│..");
    assert_eq!(glyph_row(&buf, 3), ".│...│..");
    assert_eq!(glyph_row(&buf, 4), ".└───┘..");
    assert_eq!(glyph_row(&buf, 5), "........");
}

#[test]
fn title_is_clipped_between_the_corners() {
    let mut buf = filled(6, 3, ' ');
    let p = Popup::default().title(chars("toolong"));
    p.render(
        Rect { x: 0, y: 0, width: 6, height: 3 },
        &mut buf,
    );
    assert_eq!(glyph_row(&buf, 0), "┌tool┐");
}

#[test]
fn styles_are_applied_per_part() {
    let border = Style { fg: 1, bg: 0 };
    let title = Style { fg: 2, bg: 0 };
    let body = Style { fg: 3, bg: 0 };
    let mut buf = filled(7, 4, ' ');
    let p = Popup::default()
        .title(chars("T"))
        .content(chars("x"))
        .border_style(border)
        .title_style(title)
        .style(body);
    p.render(
        Rect { x: 0, y: 0, width: 7, height: 4 },
        &mut buf,
    );
    assert_eq!(buf.get(0, 0).style, border);
    assert_eq!(buf.get(1, 0).style, title);
    assert_eq!(buf.get(2, 0).style, border);
    assert_eq!(buf.get(1, 1).style, body);
    assert_eq!(buf.get(1, 1).glyph, 'x');
}

#[test]
fn area_reaching_past_the_buffer_is_clipped() {
    let mut buf = filled(5, 5, '.');
    let p = Popup::default().content(chars("hello"));
    p.render(
        Rect { x: 2, y: 2, width: 10, height: 10 },
        &mut buf,
    );
    assert_eq!(glyph_row(&buf, 0), ".....");
    assert_eq!(glyph_row(&buf, 1), ".....");
    assert_eq!(glyph_row(&buf, 2), "..┌──");
    assert_eq!(glyph_row(&buf, 3), "..│he");
    assert_eq!(glyph_row(&buf, 4), "..│..");
}

#[test]
fn one_by_one_area_shows_a_single_corner() {
    let mut buf = filled(3, 3, '.');
    let p = Popup::default();
    p.render(
        Rect { x: 1, y: 1, width: 1, height: 1 },
        &mut buf,
    );
    assert_eq!(glyph_row(&buf, 1), ".┌.");
}
