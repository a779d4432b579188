use crate::decimal::decimal;
use crate::decimal::decimal_text;
use crate::fonts::TextStyle;
use crate::layout::make_id;
use crate::layout::spec_active_after;
use crate::layout::spec_interact;
use crate::layout::spec_make_id;
use crate::layout::text_cmds;
use crate::layout::GuiResponse;
use crate::layout::Id;
use crate::layout::Layout;
use crate::layout::Region;
use crate::math::remap_clamp;
use crate::math::spec_remap_clamp;
use crate::math::Rect;
use crate::math::Vec2;
use crate::types::GuiCmd;
use crate::types::GuiCmdView;
use crate::types::InteractInfo;
use crate::widgets::label;
use crate::widgets::Widget;
use vstd::prelude::*;
use vstd::string::*;

verus! {

/// The value of a slider after a frame. While the slider is active and the
/// pointer is somewhere, the pointer's x position within the horizontal span
/// of `rect` is mapped linearly onto the range from `min` to `max` and held
/// to it. A slider that is not active keeps its value, and so does one whose
/// rectangle has no width, for which there is nothing to map.
pub open spec fn spec_drag_value(
    current: i32,
    active: bool,
    pointer: Option<Vec2>,
    rect: Rect,
    min: i32,
    max: i32,
) -> i32 {
    if active && rect.min.x < rect.max.x && pointer is Some {
        spec_remap_clamp(
            pointer->0.x as int,
            rect.min.x as int,
            rect.max.x as int,
            min as int,
            max as int,
        ) as i32
    } else {
        current
    }
}

/// The value of a slider after a frame in which the region found `active`
/// and gave it `rect`.
pub fn drag_value(
    current: i32,
    active: bool,
    pointer: Option<Vec2>,
    rect: Rect,
    min: i32,
    max: i32,
) -> (value: i32)
    requires
        min <= max,
    ensures
        value == spec_drag_value(current, active, pointer, rect, min, max),
        !active || pointer is None || rect.min.x >= rect.max.x ==> value == current,
        active && rect.min.x < rect.max.x && pointer is Some ==> {
            &&& min <= value <= max
            &&& pointer->0.x <= rect.min.x ==> value == min
            &&& pointer->0.x >= rect.max.x ==> value == max
        },
{
    if active && rect.min.x < rect.max.x {
        match pointer {
            Some(pos) => remap_clamp(pos.x, rect.min.x, rect.max.x, min, max),
            None => current,
        }
    } else {
        current
    }
}

/// The text beside or above a slider: its label, a colon and the value.
pub open spec fn label_text(text: Seq<char>, value: i32) -> Seq<char> {
    text + ": "@ + decimal_text(value as int)
}

/// The text of an optional label, as a plain sequence.
pub open spec fn text_view(text: Option<String>) -> Option<Seq<char>> {
    match text {
        Some(text) => Some(text@),
        None => None,
    }
}

/// The identity that a slider passes on: the one it was given; for a slider
/// with a label and none given, the one that the label stands for.
pub open spec fn slider_id(id: Option<Id>, text: Option<Seq<char>>) -> Option<Id> {
    match text {
        Some(text) => Some(
            match id {
                Some(id) => id,
                None => spec_make_id(text),
            },
        ),
        None => id,
    }
}

/// The size that the bar of a slider asks for in the layout `place`: all the
/// width that is free and one line of button text in height.
pub open spec fn bar_size(region: &Region, place: Layout) -> Vec2 {
    Vec2 { x: place.spec_available_space().x, y: region.fonts.button.line_spacing as i32 }
}

/// The layout in which the bar of a slider is placed: the region's own for
/// a slider without a label; below the label for one whose label is on top;
/// the left one of two columns otherwise.
pub open spec fn bar_place(region: &Region, text: Option<Seq<char>>, on_top: bool, value: i32)
    -> Layout {
    match text {
        None => region.layout,
        Some(text) => if on_top {
            region.layout.after_reserve(
                region.fonts.button.spec_size(
                    label_text(text, value),
                    region.layout.spec_available_space().x as int,
                ),
                region.options.item_spacing,
            )
        } else {
            region.layout.spec_column(0, 2)
        },
    }
}

/// The commands that paint the label of a slider: none without a label; the
/// label's lines in the rectangle reserved for them, in the button font, for
/// a label on top; its lines in the right one of two columns, in the body
/// font, otherwise.
pub open spec fn label_cmds(region: &Region, text: Option<Seq<char>>, on_top: bool, value: i32)
    -> Seq<GuiCmdView> {
    match text {
        None => Seq::empty(),
        Some(text) => if on_top {
            text_cmds(
                region.layout.reserved_rect(
                    region.fonts.button.spec_size(
                        label_text(text, value),
                        region.layout.spec_available_space().x as int,
                    ),
                ).min,
                TextStyle::Button,
                region.fonts.button.spec_layout(
                    label_text(text, value),
                    region.layout.spec_available_space().x as int,
                ),
            )
        } else {
            let column = region.layout.spec_column(1, 2);
            text_cmds(
                column.reserved_rect(
                    region.fonts.body.spec_size(
                        label_text(text, value),
                        column.spec_available_space().x as int,
                    ),
                ).min,
                TextStyle::Body,
                region.fonts.body.spec_layout(
                    label_text(text, value),
                    column.spec_available_space().x as int,
                ),
            )
        },
    }
}

/// The region's layout after a slider: past the bar where the bar stands in
/// the region's own flow; past both columns, by the height of the higher
/// one, where label and bar stand side by side.
pub open spec fn layout_after_slider(
    region: &Region,
    text: Option<Seq<char>>,
    on_top: bool,
    value: i32,
) -> Layout {
    let place = bar_place(region, text, on_top, value);
    let bar = place.after_reserve(bar_size(region, place), region.options.item_spacing);
    if text is Some && !on_top {
        let column = region.layout.spec_column(1, 2);
        let label = column.after_reserve(
            region.fonts.body.spec_size(
                label_text(text->0, value),
                column.spec_available_space().x as int,
            ),
            region.options.item_spacing,
        );
        let height = if label.spec_used_height() > bar.spec_used_height() {
            label.spec_used_height()
        } else {
            bar.spec_used_height()
        };
        region.layout.after_reserve(
            Vec2 { x: region.layout.spec_available_space().x, y: height as i32 },
            region.options.item_spacing,
        )
    } else {
        bar
    }
}

/// The value of a slider with the given configuration after it was added
/// to `region`: what the pointer makes of `value` if the bar is active, and
/// `value` itself otherwise.
pub open spec fn value_after_slider(
    region: &Region,
    min: i32,
    max: i32,
    id: Option<Id>,
    text: Option<Seq<char>>,
    on_top: bool,
    value: i32,
) -> i32 {
    let place = bar_place(region, text, on_top, value);
    let rect = place.reserved_rect(bar_size(region, place));
    let full_id = region.spec_combined_id(slider_id(id, text));
    spec_drag_value(
        value,
        spec_interact(region.input, region.active_id, rect, full_id).active,
        region.input.mouse_pos,
        rect,
        min,
        max,
    )
}

/// `after` is the region `before` once a slider with the given
/// configuration, bound to `value`, was added to it, and `response` is the
/// slider's answer: the label, if there is one, shows the value as it was;
/// the bar is reserved under the slider's identity and shows the value as it
/// is after the frame's drag.
pub open spec fn slider_added(
    before: &Region,
    after: &Region,
    min: i32,
    max: i32,
    id: Option<Id>,
    text: Option<Seq<char>>,
    on_top: bool,
    value: i32,
    response: GuiResponse,
) -> bool {
    let place = bar_place(before, text, on_top, value);
    let rect = place.reserved_rect(bar_size(before, place));
    let full_id = before.spec_combined_id(slider_id(id, text));
    let interact = spec_interact(before.input, before.active_id, rect, full_id);
    &&& response.interact == interact
    &&& after.same_frame(before)
    &&& after.active_id == spec_active_after(before.input, before.active_id, rect, full_id)
    &&& after.layout == layout_after_slider(before, text, on_top, value)
    &&& after.output() == before.output() + label_cmds(before, text, on_top, value) + seq![
        GuiCmdView::Slider {
            interact,
            max,
            min,
            rect,
            value: value_after_slider(before, min, max, id, text, on_top, value),
        },
    ]
}

/// A bar on which the application's value is dragged between two bounds,
/// with or without a label that names it and shows the value.
#[derive(Debug)]
pub struct Slider<'a> {
    pub value: &'a mut i32,
    pub min: i32,
    pub max: i32,
    pub id: Option<Id>,
    pub text: Option<String>,
    pub text_on_top: Option<bool>,
}

impl<'a> Slider<'a> {
    /// A slider without a label that is bound to `value` for the one call
    /// that adds it.
    pub fn new(value: &'a mut i32, min: i32, max: i32) -> (slider: Slider<'a>)
        ensures
            *slider.value == *old(value),
            *final(value) == *final(slider.value),
            slider.min == min,
            slider.max == max,
            slider.id is None,
            slider.text is None,
            slider.text_on_top is None,
    {
        Slider { value, min, max, id: None, text: None, text_on_top: None }
    }

    /// Gives the slider an identity of the caller's choice.
    pub fn id(self, id: Id) -> (slider: Slider<'a>)
        ensures
            slider == (Slider { id: Some(id), ..self }),
    {
        Slider { id: Some(id), ..self }
    }

    /// Gives the slider a label.
    pub fn text(self, text: &str) -> (slider: Slider<'a>)
        ensures
            slider.value == self.value,
            slider.min == self.min,
            slider.max == self.max,
            slider.id == self.id,
            text_view(slider.text) == Some(text@),
            slider.text_on_top == self.text_on_top,
    {
        Slider { text: Some(String::from_str(text)), ..self }
    }

    /// Chooses where the label goes: above the bar, or beside it.
    pub fn text_on_top(self, on_top: bool) -> (slider: Slider<'a>)
        ensures
            slider == (Slider { text_on_top: Some(on_top), ..self }),
    {
        Slider { text_on_top: Some(on_top), ..self }
    }

    /// Whether the label, if there is one, goes above the bar.
    pub open spec fn on_top(&self) -> bool {
        self.text_on_top == Some(true)
    }
}

/// Places the bar of a slider at the cursor: reserves its space under the
/// identity, lets the pointer drag the value while the bar is active, and
/// emits the bar with the value as it is after that.
fn add_bar(value: &mut i32, min: i32, max: i32, id: Option<Id>, region: &mut Region) -> (response:
    GuiResponse)
    requires
        old(region).wf(),
        min <= max,
    ensures
        final(region).wf(),
        old(region).kept_by(final(region), response),
        response.interact == old(region).interact_for(
            bar_size(old(region), old(region).layout),
            old(region).spec_combined_id(id),
        ),
        *final(value) == spec_drag_value(
            *old(value),
            response.interact.active,
            old(region).input.mouse_pos,
            response.interact.rect,
            min,
            max,
        ),
        !response.interact.active ==> *final(value) == *old(value),
        *final(value) == *old(value) || min <= *final(value) <= max,
        old(region).widget_added(
            final(region),
            bar_size(old(region), old(region).layout),
            old(region).spec_combined_id(id),
            seq![
                GuiCmdView::Slider {
                    interact: response.interact,
                    max,
                    min,
                    rect: response.interact.rect,
                    value: *final(value),
                },
            ],
        ),
{
    let full_id = region.combined_id(id);
    let height = region.fonts().font(TextStyle::Button).line_spacing();
    let size = Vec2 { x: region.available_space().x, y: height };
    let (rect, interact) = region.reserve_space(size, full_id);
    *value = drag_value(*value, interact.active, region.input().mouse_pos, rect, min, max);
    region.add_graphic(GuiCmd::Slider { interact, max, min, rect, value: *value });
    assert(final(region).output() =~= old(region).output() + seq![
        GuiCmdView::Slider { interact, max, min, rect, value: *value },
    ]);
    region.response(interact)
}

/// Places a slider whose label goes above the bar: the label's lines at
/// the cursor, the bar below them.
fn add_below_label(
    value: &mut i32,
    min: i32,
    max: i32,
    id: Option<Id>,
    text: &str,
    full_text: &str,
    region: &mut Region,
) -> (response: GuiResponse)
    requires
        old(region).wf(),
        min <= max,
        full_text@ == label_text(text@, *old(value)),
    ensures
        final(region).wf(),
        old(region).kept_by(final(region), response),
        slider_added(
            old(region),
            final(region),
            min,
            max,
            id,
            Some(text@),
            true,
            *old(value),
            response,
        ),
        *final(value) == value_after_slider(
            old(region),
            min,
            max,
            id,
            Some(text@),
            true,
            *old(value),
        ),
        !response.interact.active ==> *final(value) == *old(value),
        *final(value) == *old(value) || min <= *final(value) <= max,
{
    let full_id = Some(
        match id {
            Some(id) => id,
            None => make_id(text),
        },
    );
    let font = region.fonts().font(TextStyle::Button);
    let (lines, text_size) = font.layout_multiline(full_text, region.width());
    let text_rect = region.reserve_space_inner(text_size);
    region.add_text(text_rect.min, TextStyle::Button, lines);
    let ghost with_label = region.output();
    let response = add_bar(value, min, max, full_id, region);
    proof {
        let cmds = label_cmds(old(region), Some(text@), true, *old(value));
        let bar = seq![
            GuiCmdView::Slider {
                interact: response.interact,
                max,
                min,
                rect: response.interact.rect,
                value: *value,
            },
        ];
        assert(with_label == old(region).output() + cmds);
        assert(region.output() == with_label + bar);
        assert(region.output() =~= old(region).output() + cmds + bar);
        assert(old(region).output().is_prefix_of(region.output()));
    }
    response
}

/// Places a slider whose label goes beside the bar: the free width is split
/// into two columns, the label fills the right one and the bar the left one,
/// and the region moves past the higher of the two.
fn add_beside_label(
    value: &mut i32,
    min: i32,
    max: i32,
    id: Option<Id>,
    text: &str,
    full_text: &str,
    region: &mut Region,
) -> (response: GuiResponse)
    requires
        old(region).wf(),
        min <= max,
        full_text@ == label_text(text@, *old(value)),
    ensures
        final(region).wf(),
        old(region).kept_by(final(region), response),
        slider_added(
            old(region),
            final(region),
            min,
            max,
            id,
            Some(text@),
            false,
            *old(value),
            response,
        ),
        *final(value) == value_after_slider(
            old(region),
            min,
            max,
            id,
            Some(text@),
            false,
            *old(value),
        ),
        !response.interact.active ==> *final(value) == *old(value),
        *final(value) == *old(value) || min <= *final(value) <= max,
{
    let full_id = Some(
        match id {
            Some(id) => id,
            None => make_id(text),
        },
    );
    let parent = region.layout;
    region.enter(parent.column(1, 2));
    label(full_text).add_to(region);
    let ghost with_label = region.output();
    let label_column = region.enter(parent.column(0, 2));
    let response = add_bar(value, min, max, full_id, region);
    let bar_column = region.enter(parent);
    let label_height = label_column.used_height();
    let bar_height = bar_column.used_height();
    let height = if label_height > bar_height {
        label_height
    } else {
        bar_height
    };
    region.reserve_space_inner(Vec2 { x: parent.available_space().x, y: height });
    proof {
        let cmds = label_cmds(old(region), Some(text@), false, *old(value));
        let bar = seq![
            GuiCmdView::Slider {
                interact: response.interact,
                max,
                min,
                rect: response.interact.rect,
                value: *value,
            },
        ];
        assert(with_label == old(region).output() + cmds);
        assert(region.output() == with_label + bar);
        assert(region.output() =~= old(region).output() + cmds + bar);
        assert(old(region).output().is_prefix_of(region.output()));
    }
    response
}

impl<'a> Widget for Slider<'a> {
    /// The bounds are in order.
    open spec fn valid(&self) -> bool {
        self.min <= self.max
    }

    /// The slider emits its label, if it has one, and its bar, which shows
    /// the value as it is after the frame's drag.
    open spec fn added(&self, before: &Region, after: &Region, response: GuiResponse) -> bool {
        slider_added(
            before,
            after,
            self.min,
            self.max,
            self.id,
            text_view(self.text),
            self.on_top(),
            *self.value,
            response,
        )
    }

    /// While the bar is active the value follows the pointer and stays
    /// within the bounds; otherwise it is left as it is.
    fn add_to(self, region: &mut Region) -> (response: GuiResponse)
        ensures
            *final(self.value) == value_after_slider(
                old(region),
                self.min,
                self.max,
                self.id,
                text_view(self.text),
                self.on_top(),
                *old(self.value),
            ),
            !response.interact.active ==> *final(self.value) == *old(self.value),
            *final(self.value) == *old(self.value) || self.min <= *final(self.value) <= self.max,
    {
        let Slider { value, min, max, id, text, text_on_top } = self;
        match text {
            Some(text) => {
                let on_top = match text_on_top {
                    Some(on_top) => on_top,
                    None => false,
                };
                let number = decimal(*value);
                let mut full_text = text.clone();
                full_text.append(": ");
                full_text.append(number.as_str());
                if on_top {
                    add_below_label(
                        value,
                        min,
                        max,
                        id,
                        text.as_str(),
                        full_text.as_str(),
                        region,
                    )
                } else {
                    add_beside_label(
                        value,
                        min,
                        max,
                        id,
                        text.as_str(),
                        full_text.as_str(),
                        region,
                    )
                }
            },
            None => {
                let response = add_bar(value, min, max, id, region);
                proof {
                    assert(final(region).output() =~= old(region).output() + label_cmds(
                        old(region),
                        None,
                        false,
                        *old(self.value),
                    ) + seq![
                        GuiCmdView::Slider {
                            interact: response.interact,
                            max,
                            min,
                            rect: response.interact.rect,
                            value: *value,
                        },
                    ]);
                }
                response
            },
        }
    }
}

} // verus!
