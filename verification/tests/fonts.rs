use emigui::fonts::Font;
use emigui::fonts::Fonts;
use emigui::fonts::TextFragment;
use emigui::fonts::TextStyle;
use emigui::math::vec2;

fn mono(advance: u16, line_spacing: u16) -> Font {
    Font { advances: Vec::new(), default_advance: advance, line_spacing }
}

fn fragment(x_offsets: Vec<i32>, y_offset: i32, text: &str) -> TextFragment {
    TextFragment { x_offsets, y_offset, text: text.to_string() }
}

#[test]
fn a_line_that_fits_stays_whole() {
    let (lines, size) = mono(10, 12).layout_multiline("abc", 400);
    assert_eq!(lines, vec![fragment(vec![0, 10, 20], 0, "abc")]);
    assert_eq!(size, vec2(30, 12));
}

#[test]
fn a_line_that_fits_exactly_stays_whole() {
    let (lines, size) = mono(10, 12).layout_multiline("abcde", 50);
    assert_eq!(lines, vec![fragment(vec![0, 10, 20, 30, 40], 0, "abcde")]);
    assert_eq!(size, vec2(50, 12));
}

#[test]
fn a_long_line_is_broken_at_the_width() {
    let (lines, size) = mono(10, 12).layout_multiline("hello world", 50);
    assert_eq!(
        lines,
        vec![
            fragment(vec![0, 10, 20, 30, 40], 0, "hello"),
            fragment(vec![0, 10, 20, 30, 40], 12, " worl"),
            fragment(vec![0], 24, "d"),
        ]
    );
    assert_eq!(size, vec2(50, 36));
}

#[test]
fn a_line_feed_ends_a_line() {
    let (lines, size) = mono(10, 12).layout_multiline("ab\ncde", 100);
    assert_eq!(lines, vec![fragment(vec![0, 10], 0, "ab"), fragment(vec![0, 10, 20], 12, "cde")]);
    assert_eq!(size, vec2(30, 24));
}

#[test]
fn a_line_feed_at_the_end_leaves_an_empty_line() {
    let (lines, size) = mono(10, 12).layout_multiline("ab\n", 100);
    assert_eq!(lines, vec![fragment(vec![0, 10], 0, "ab"), fragment(vec![], 12, "")]);
    assert_eq!(size, vec2(20, 24));
}

#[test]
fn consecutive_line_feeds_leave_empty_lines() {
    let (lines, size) = mono(10, 12).layout_multiline("\n\nx", 100);
    assert_eq!(
        lines,
        vec![fragment(vec![], 0, ""), fragment(vec![], 12, ""), fragment(vec![0], 24, "x")]
    );
    assert_eq!(size, vec2(10, 36));
}

#[test]
fn a_line_feed_right_after_a_full_line() {
    let (lines, size) = mono(10, 12).layout_multiline("abcde\nf", 50);
    assert_eq!(
        lines,
        vec![fragment(vec![0, 10, 20, 30, 40], 0, "abcde"), fragment(vec![0], 12, "f")]
    );
    assert_eq!(size, vec2(50, 24));
}

#[test]
fn empty_text_is_one_empty_line() {
    let (lines, size) = mono(10, 12).layout_multiline("", 100);
    assert_eq!(lines, vec![fragment(vec![], 0, "")]);
    assert_eq!(size, vec2(0, 12));
}

#[test]
fn no_width_puts_each_character_on_its_own_line() {
    let (lines, size) = mono(10, 12).layout_multiline("abc", 0);
    assert_eq!(
        lines,
        vec![fragment(vec![0], 0, "a"), fragment(vec![0], 12, "b"), fragment(vec![0], 24, "c")]
    );
    assert_eq!(size, vec2(10, 36));
    let (negative, negative_size) = mono(10, 12).layout_multiline("abc", -5);
    assert_eq!(negative, lines);
    assert_eq!(negative_size, size);
}

#[test]
fn advances_come_from_the_table() {
    let mut advances = vec![8u16; 128];
    advances['i' as usize] = 4;
    advances['w' as usize] = 12;
    let font = Font { advances, default_advance: 20, line_spacing: 15 };
    assert_eq!(font.glyph_advance('i'), 4);
    assert_eq!(font.glyph_advance('w'), 12);
    assert_eq!(font.glyph_advance('a'), 8);
    assert_eq!(font.glyph_advance('\u{e9}'), 20);
    assert_eq!(font.line_spacing(), 15);
    let (lines, size) = font.layout_multiline("wi\u{e9}a", 100);
    assert_eq!(lines, vec![fragment(vec![0, 12, 16, 36], 0, "wi\u{e9}a")]);
    assert_eq!(size, vec2(44, 15));
}

#[test]
fn wide_and_narrow_characters_break_where_the_width_ends() {
    let mut advances = vec![8u16; 128];
    advances['i' as usize] = 4;
    advances['w' as usize] = 12;
    let font = Font { advances, default_advance: 20, line_spacing: 15 };
    let (lines, size) = font.layout_multiline("wwiiw", 30);
    assert_eq!(
        lines,
        vec![fragment(vec![0, 12, 24], 0, "wwi"), fragment(vec![0, 4], 15, "iw")]
    );
    assert_eq!(size, vec2(28, 30));
}

#[test]
fn offsets_count_characters_not_bytes() {
    let text = "na\u{ef}ve \u{4e16}\u{754c}";
    let (lines, _) = mono(7, 9).layout_multiline(text, 1000);
    assert_eq!(lines.len(), 1);
    assert_eq!(lines[0].x_offsets.len(), text.chars().count());
    assert_eq!(lines[0].x_offsets, vec![0, 7, 14, 21, 28, 35, 42, 49]);
    assert_eq!(lines[0].text, text);
}

#[test]
fn every_fragment_has_one_offset_for_each_character() {
    let text = "The quick brown fox\njumps over\n\nthe lazy dog \u{1f600}";
    let mut width = -3;
    while width < 120 {
        let (lines, size) = mono(7, 9).layout_multiline(text, width);
        let mut joined = 0;
        for line in &lines {
            assert_eq!(line.x_offsets.len(), line.text.chars().count());
            let chars = line.text.chars().count() as i32;
            if chars >= 2 {
                assert!(chars * 7 <= width);
            }
            assert!(chars * 7 <= size.x);
            joined += line.text.chars().count();
        }
        assert_eq!(joined, text.chars().filter(|c| *c != '\n').count());
        assert_eq!(size.y, 9 * lines.len() as i32);
        width += 1;
    }
}

#[test]
fn the_height_saturates() {
    let text = "\n".repeat(40000);
    let (lines, size) = mono(1, 65535).layout_multiline(&text, 10);
    assert_eq!(lines.len(), 40001);
    assert_eq!(size, vec2(0, i32::MAX));
    assert_eq!(lines[1].y_offset, 65535);
    assert_eq!(lines[32768].y_offset, 32768 * 65535);
    assert_eq!(lines[32769].y_offset, i32::MAX);
    assert_eq!(lines[40000].y_offset, i32::MAX);
}

#[test]
fn each_style_has_its_font() {
    let fonts = Fonts { body: mono(1, 2), button: mono(3, 4), heading: mono(5, 6) };
    assert_eq!(*fonts.font(TextStyle::Body), mono(1, 2));
    assert_eq!(*fonts.font(TextStyle::Button), mono(3, 4));
    assert_eq!(*fonts.font(TextStyle::Heading), mono(5, 6));
}
