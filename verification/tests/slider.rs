use emigui::color::Color;
use emigui::fonts::Font;
use emigui::fonts::Fonts;
use emigui::fonts::TextStyle;
use emigui::layout::make_id;
use emigui::layout::Direction;
use emigui::layout::Id;
use emigui::layout::LayoutOptions;
use emigui::layout::Region;
use emigui::math::vec2;
use emigui::math::Rect;
use emigui::math::Vec2;
use emigui::slider::drag_value;
use emigui::slider::Slider;
use emigui::types::GuiCmd;
use emigui::types::GuiInput;
use emigui::types::InteractInfo;
use emigui::types::PaintCmd;
use emigui::widgets::Widget;

fn mono(advance: u16, line_spacing: u16) -> Font {
    Font { advances: Vec::new(), default_advance: advance, line_spacing }
}

fn fonts() -> Fonts {
    Fonts { body: mono(10, 14), button: mono(10, 12), heading: mono(20, 24) }
}

fn options() -> LayoutOptions {
    LayoutOptions {
        item_spacing: vec2(3, 2),
        button_padding: vec2(10, 4),
        start_icon_width: 20,
    }
}

fn input(down: bool, clicked: bool, pos: Option<Vec2>) -> GuiInput {
    GuiInput {
        mouse_down: down,
        mouse_clicked: clicked,
        mouse_released: false,
        mouse_pos: pos,
        screen_size: vec2(400, 300),
        pixels_per_point: 1,
    }
}

fn region(input: GuiInput, active: Option<Id>, bounds: Rect) -> Region {
    Region::new(input, options(), fonts(), active, bounds, Direction::Vertical)
}

fn text_cmd(pos: Vec2, style: TextStyle, text: &str) -> GuiCmd {
    let mut x_offsets = Vec::new();
    let mut x = 0;
    for _ in text.chars() {
        x_offsets.push(x);
        x += 10;
    }
    GuiCmd::PaintCommands(vec![PaintCmd::Text {
        color: Color::white(),
        pos,
        text: text.to_string(),
        text_style: style,
        x_offsets,
    }])
}

fn span(x0: i32, x1: i32) -> Rect {
    Rect { min: vec2(x0, 0), max: vec2(x1, 12) }
}

#[test]
fn slider_drag() {
    assert_eq!(drag_value(0, true, Some(vec2(200, 5)), span(100, 300), 0, 100), 50);
    assert_eq!(drag_value(99, true, Some(vec2(200, 5)), span(100, 300), 0, 100), 50);
}

#[test]
fn zero_width_slider_rect() {
    assert_eq!(drag_value(37, true, Some(vec2(150, 5)), span(150, 150), 0, 100), 37);
    assert_eq!(drag_value(37, true, Some(vec2(0, 5)), span(150, 150), 0, 100), 37);
    assert_eq!(drag_value(37, true, Some(vec2(900, 5)), span(150, 150), 0, 100), 37);
}

#[test]
fn an_inverted_rect_changes_nothing() {
    assert_eq!(drag_value(37, true, Some(vec2(150, 5)), span(200, 100), 0, 100), 37);
}

#[test]
fn a_slider_that_is_not_active_keeps_its_value() {
    assert_eq!(drag_value(37, false, Some(vec2(200, 5)), span(100, 300), 0, 100), 37);
}

#[test]
fn a_slider_without_a_pointer_keeps_its_value() {
    assert_eq!(drag_value(37, true, None, span(100, 300), 0, 100), 37);
}

#[test]
fn the_ends_of_the_bar_are_the_bounds() {
    assert_eq!(drag_value(37, true, Some(vec2(100, 5)), span(100, 300), -20, 80), -20);
    assert_eq!(drag_value(37, true, Some(vec2(300, 5)), span(100, 300), -20, 80), 80);
}

#[test]
fn beyond_the_ends_the_value_is_held_to_the_bounds() {
    assert_eq!(drag_value(37, true, Some(vec2(99, 5)), span(100, 300), -20, 80), -20);
    assert_eq!(drag_value(37, true, Some(vec2(-5000, 5)), span(100, 300), -20, 80), -20);
    assert_eq!(drag_value(37, true, Some(vec2(301, 5)), span(100, 300), -20, 80), 80);
    assert_eq!(drag_value(37, true, Some(vec2(5000, 5)), span(100, 300), -20, 80), 80);
}

#[test]
fn the_height_of_the_pointer_does_not_matter() {
    assert_eq!(drag_value(37, true, Some(vec2(150, -400)), span(100, 300), 0, 100), 25);
}

#[test]
fn equal_bounds_leave_one_value() {
    assert_eq!(drag_value(37, true, Some(vec2(150, 5)), span(100, 300), 9, 9), 9);
}

#[test]
fn a_new_slider_is_bare() {
    let mut value = 5;
    let slider = Slider::new(&mut value, -1, 10);
    assert_eq!(*slider.value, 5);
    assert_eq!(slider.min, -1);
    assert_eq!(slider.max, 10);
    assert_eq!(slider.id, None);
    assert_eq!(slider.text, None);
    assert_eq!(slider.text_on_top, None);
}

#[test]
fn a_slider_is_configured_step_by_step() {
    let mut value = 5;
    let slider = Slider::new(&mut value, -1, 10).id(Id(4)).text("gain").text_on_top(true);
    assert_eq!(*slider.value, 5);
    assert_eq!(slider.min, -1);
    assert_eq!(slider.max, 10);
    assert_eq!(slider.id, Some(Id(4)));
    assert_eq!(slider.text, Some("gain".to_string()));
    assert_eq!(slider.text_on_top, Some(true));
}

#[test]
fn an_active_slider_follows_the_pointer() {
    let mut value = 0;
    let bounds = Rect { min: vec2(100, 0), max: vec2(300, 100) };
    let full_id = Id(0).child(Id(7));
    let mut r = region(input(true, false, Some(vec2(200, 50))), Some(full_id), bounds);
    let response = Slider::new(&mut value, 0, 100).id(Id(7)).add_to(&mut r);
    assert_eq!(value, 50);
    let rect = Rect { min: vec2(100, 0), max: vec2(300, 12) };
    let interact = InteractInfo { hovered: false, clicked: false, active: true, rect };
    assert_eq!(response.interact, interact);
    assert_eq!(
        r.gui_cmds,
        vec![GuiCmd::Slider { interact, max: 100, min: 0, rect, value: 50 }]
    );
    assert_eq!(r.cursor(), vec2(100, 14));
    assert_eq!(r.active_id, Some(full_id));
}

#[test]
fn a_pressed_slider_is_active_at_once() {
    let mut value = 0;
    let bounds = Rect { min: vec2(100, 0), max: vec2(300, 100) };
    let mut r = region(input(true, true, Some(vec2(250, 6))), None, bounds);
    let response = Slider::new(&mut value, 0, 100).id(Id(7)).add_to(&mut r);
    assert!(response.clicked());
    assert!(response.active());
    assert_eq!(value, 75);
    assert_eq!(r.active_id, Some(Id(0).child(Id(7))));
    assert!(matches!(r.gui_cmds[0], GuiCmd::Slider { value: 75, min: 0, max: 100, .. }));
}

#[test]
fn a_slider_in_a_region_without_width_keeps_its_value() {
    let mut value = 37;
    let bounds = Rect { min: vec2(150, 0), max: vec2(150, 100) };
    let full_id = Id(0).child(Id(7));
    let mut r = region(input(true, false, Some(vec2(150, 5))), Some(full_id), bounds);
    let response = Slider::new(&mut value, 0, 100).id(Id(7)).add_to(&mut r);
    assert!(response.active());
    assert_eq!(response.rect(), Rect { min: vec2(150, 0), max: vec2(150, 12) });
    assert_eq!(value, 37);
    assert!(matches!(r.gui_cmds[0], GuiCmd::Slider { value: 37, .. }));
}

#[test]
fn an_idle_slider_keeps_its_value() {
    let mut value = 37;
    let bounds = Rect { min: vec2(100, 0), max: vec2(300, 100) };
    let mut r = region(input(false, false, Some(vec2(200, 5))), None, bounds);
    let response = Slider::new(&mut value, 0, 100).id(Id(7)).add_to(&mut r);
    assert!(response.hovered());
    assert!(!response.active());
    assert_eq!(value, 37);
}

#[test]
fn another_owner_keeps_the_slider_still() {
    let mut value = 37;
    let bounds = Rect { min: vec2(100, 0), max: vec2(300, 100) };
    let mut r = region(input(true, false, Some(vec2(200, 5))), Some(Id(99)), bounds);
    let response = Slider::new(&mut value, 0, 100).id(Id(7)).add_to(&mut r);
    assert!(!response.active());
    assert_eq!(value, 37);
    assert_eq!(r.active_id, Some(Id(99)));
}

#[test]
fn a_slider_without_identity_is_never_active() {
    let mut value = 37;
    let bounds = Rect { min: vec2(100, 0), max: vec2(300, 100) };
    let mut r = region(input(true, true, Some(vec2(200, 5))), None, bounds);
    let response = Slider::new(&mut value, 0, 100).add_to(&mut r);
    assert!(response.clicked());
    assert!(!response.active());
    assert_eq!(value, 37);
    assert_eq!(r.active_id, None);
}

#[test]
fn labeled_slider_in_two_columns() {
    let mut value = 50;
    let bounds = Rect { min: vec2(0, 0), max: vec2(200, 100) };
    let mut r = region(input(false, false, None), None, bounds);
    let response = Slider::new(&mut value, 0, 100).text("vol").add_to(&mut r);
    let rect = Rect { min: vec2(0, 0), max: vec2(100, 12) };
    let interact = InteractInfo { hovered: false, clicked: false, active: false, rect };
    assert_eq!(response.interact, interact);
    assert_eq!(
        r.gui_cmds,
        vec![
            text_cmd(vec2(100, 0), TextStyle::Body, "vol: 50"),
            GuiCmd::Slider { interact, max: 100, min: 0, rect, value: 50 },
        ]
    );
    assert_eq!(r.cursor(), vec2(0, 16));
    assert_eq!(r.layout.used, vec2(200, 14));
    assert_eq!(r.layout.bounds, bounds);
    assert_eq!(value, 50);
}

#[test]
fn a_long_label_wraps_within_its_column() {
    let mut value = 5;
    let bounds = Rect { min: vec2(0, 0), max: vec2(200, 100) };
    let mut r = region(input(false, false, None), None, bounds);
    Slider::new(&mut value, 0, 100).text("a long label name").add_to(&mut r);
    let rect = Rect { min: vec2(0, 0), max: vec2(100, 12) };
    let interact = InteractInfo { hovered: false, clicked: false, active: false, rect };
    assert_eq!(
        r.gui_cmds,
        vec![
            text_cmd(vec2(100, 0), TextStyle::Body, "a long lab"),
            text_cmd(vec2(100, 14), TextStyle::Body, "el name: 5"),
            GuiCmd::Slider { interact, max: 100, min: 0, rect, value: 5 },
        ]
    );
    assert_eq!(r.cursor(), vec2(0, 30));
    assert_eq!(r.layout.used, vec2(200, 28));
}

#[test]
fn an_odd_width_splits_into_equal_columns() {
    let mut value = 5;
    let bounds = Rect { min: vec2(10, 20), max: vec2(211, 100) };
    let mut r = region(input(false, false, None), None, bounds);
    let response = Slider::new(&mut value, 0, 100).text("v").add_to(&mut r);
    assert_eq!(response.rect(), Rect { min: vec2(10, 20), max: vec2(110, 32) });
    assert_eq!(r.gui_cmds[0], text_cmd(vec2(110, 20), TextStyle::Body, "v: 5"));
    assert_eq!(r.cursor(), vec2(10, 36));
}

#[test]
fn a_label_on_top_stands_above_the_bar() {
    let mut value = -3;
    let bounds = Rect { min: vec2(0, 0), max: vec2(200, 100) };
    let mut r = region(input(false, false, None), None, bounds);
    let response = Slider::new(&mut value, -10, 10).text("vol").text_on_top(true).add_to(&mut r);
    let rect = Rect { min: vec2(0, 14), max: vec2(200, 26) };
    let interact = InteractInfo { hovered: false, clicked: false, active: false, rect };
    assert_eq!(response.interact, interact);
    assert_eq!(
        r.gui_cmds,
        vec![
            text_cmd(vec2(0, 0), TextStyle::Button, "vol: -3"),
            GuiCmd::Slider { interact, max: 10, min: -10, rect, value: -3 },
        ]
    );
    assert_eq!(r.cursor(), vec2(0, 28));
}

#[test]
fn a_label_beside_the_bar_when_told_so() {
    let mut value = 1;
    let bounds = Rect { min: vec2(0, 0), max: vec2(200, 100) };
    let mut r = region(input(false, false, None), None, bounds);
    let response = Slider::new(&mut value, 0, 9).text("x").text_on_top(false).add_to(&mut r);
    assert_eq!(response.rect(), Rect { min: vec2(0, 0), max: vec2(100, 12) });
    assert_eq!(r.gui_cmds[0], text_cmd(vec2(100, 0), TextStyle::Body, "x: 1"));
}

#[test]
fn the_label_names_a_slider_that_was_given_no_identity() {
    let full_id = Id(0).child(make_id("vol"));
    for on_top in [false, true] {
        let mut value = 0;
        let bounds = Rect { min: vec2(0, 0), max: vec2(200, 100) };
        let mut r = region(input(true, false, Some(vec2(50, 500))), Some(full_id), bounds);
        let response =
            Slider::new(&mut value, 0, 100).text("vol").text_on_top(on_top).add_to(&mut r);
        assert!(response.active());
        assert_eq!(value, if on_top { 25 } else { 50 });
        assert_eq!(r.active_id, Some(full_id));
    }
}

#[test]
fn an_identity_of_its_own_outranks_the_label() {
    let mut value = 0;
    let bounds = Rect { min: vec2(0, 0), max: vec2(200, 100) };
    let by_label = Id(0).child(make_id("vol"));
    let mut r = region(input(true, false, Some(vec2(50, 5))), Some(by_label), bounds);
    let response = Slider::new(&mut value, 0, 100).id(Id(7)).text("vol").add_to(&mut r);
    assert!(!response.active());
    assert_eq!(value, 0);
    let own = Id(0).child(Id(7));
    let mut r = region(input(true, false, Some(vec2(50, 5))), Some(own), bounds);
    let response = Slider::new(&mut value, 0, 100).text("vol").id(Id(7)).add_to(&mut r);
    assert!(response.active());
    assert_eq!(value, 50);
}

#[test]
fn the_label_shows_the_value_before_the_drag() {
    let mut value = 10;
    let bounds = Rect { min: vec2(0, 0), max: vec2(200, 100) };
    let own = Id(0).child(Id(7));
    let mut r = region(input(true, false, Some(vec2(100, 5))), Some(own), bounds);
    Slider::new(&mut value, 0, 100).id(Id(7)).text("vol").add_to(&mut r);
    assert_eq!(value, 100);
    assert_eq!(r.gui_cmds[0], text_cmd(vec2(100, 0), TextStyle::Body, "vol: 10"));
    assert!(matches!(r.gui_cmds[1], GuiCmd::Slider { value: 100, .. }));
}
