use crate::color::Color;
use crate::fonts::TextStyle;
use crate::layout::all_well_formed;
use crate::layout::text_cmds;
use crate::layout::Direction;
use crate::layout::GuiResponse;
use crate::layout::Id;
use crate::layout::Region;
use crate::math::Rect;
use crate::math::Vec2;
use crate::types::paint_cmd_views;
use crate::types::GuiCmd;
use crate::types::GuiCmdView;
use crate::types::PaintCmd;
use crate::types::PaintCmdView;
use vstd::prelude::*;
use vstd::string::*;

verus! {

impl Region {
    /// `after` is this region once a widget has reserved `size` under `id`
    /// and emitted `cmds`, and nothing else has happened.
    pub open spec fn widget_added(
        &self,
        after: &Region,
        size: Vec2,
        id: Option<Id>,
        cmds: Seq<GuiCmdView>,
    ) -> bool {
        &&& after.same_frame(self)
        &&& after.layout == self.layout.after_reserve(size, self.options.item_spacing)
        &&& after.active_id == self.active_after(size, id)
        &&& after.output() == self.output() + cmds
    }

    /// What every widget keeps to, whatever it is: `after` is this region
    /// in the same frame, with the same bounds and a cursor that only moved
    /// forward; the output has only grown; `response` names a rectangle
    /// within the space that was free; a widget that owned the interaction
    /// still owns it, and a widget that answers that it is active is the
    /// owner.
    pub open spec fn kept_by(&self, after: &Region, response: GuiResponse) -> bool {
        &&& after.same_frame(self)
        &&& after.layout.follows(self.layout)
        &&& self.output().is_prefix_of(after.output())
        &&& self.layout.free_rect().encloses(response.interact.rect)
        &&& self.active_id is Some ==> after.active_id == self.active_id
        &&& response.interact.active ==> after.active_id is Some
    }

    /// Adds `widget` at the cursor.
    pub fn add<W: Widget>(&mut self, widget: W) -> (response: GuiResponse)
        requires
            old(self).wf(),
            widget.valid(),
        ensures
            final(self).wf(),
            all_well_formed(final(self).output()),
            old(self).kept_by(final(self), response),
            widget.added(old(self), final(self), response),
    {
        widget.add_to(self)
    }
}

/// Anything that can be added to a region. A widget is built, configured
/// and then consumed by one call of `add_to`, which reserves its space,
/// applies the interaction to what the widget is bound to, emits its
/// commands and answers with what the region found.
pub trait Widget: Sized {
    /// What the widget asks of its own configuration.
    spec fn valid(&self) -> bool;

    /// What adding the widget does: `after` is the region `before` with
    /// the widget in it, and `response` is the widget's answer.
    spec fn added(&self, before: &Region, after: &Region, response: GuiResponse) -> bool;

    /// Whatever the widget, it leaves the region in order, with no text
    /// command in the output that names more or fewer starts than it has
    /// characters, keeps to what `kept_by` says, and does what `added` says.
    fn add_to(self, region: &mut Region) -> (response: GuiResponse)
        requires
            old(region).wf(),
            self.valid(),
        ensures
            final(region).wf(),
            all_well_formed(final(region).output()),
            old(region).kept_by(final(region), response),
            self.added(old(region), final(region), response),
    ;
}

/// A block of text.
#[derive(Debug)]
pub struct Label {
    pub text: String,
    pub text_style: TextStyle,
}

impl Label {
    /// A label with the given text, in the body font.
    pub fn new(text: &str) -> (label: Label)
        ensures
            label.text@ == text@,
            label.text_style == TextStyle::Body,
    {
        Label { text: String::from_str(text), text_style: TextStyle::Body }
    }

    /// The same label in another font.
    pub fn text_style(self, text_style: TextStyle) -> (label: Label)
        ensures
            label.text == self.text,
            label.text_style == text_style,
    {
        Label { text: self.text, text_style }
    }

    /// The size that the label asks for in `region`: that of its text,
    /// broken into lines at the width that is free.
    pub open spec fn spec_size(&self, region: &Region) -> Vec2 {
        region.fonts.spec_font(self.text_style).spec_size(
            self.text@,
            region.layout.spec_available_space().x as int,
        )
    }

    /// The commands that the label emits in `region`: its lines, from the
    /// least corner of its rectangle downward.
    pub open spec fn spec_cmds(&self, region: &Region) -> Seq<GuiCmdView> {
        text_cmds(
            region.layout.reserved_rect(self.spec_size(region)).min,
            self.text_style,
            region.fonts.spec_font(self.text_style).spec_layout(
                self.text@,
                region.layout.spec_available_space().x as int,
            ),
        )
    }
}

/// A label with the given text, in the body font.
pub fn label(text: &str) -> (label: Label)
    ensures
        label.text@ == text@,
        label.text_style == TextStyle::Body,
{
    Label::new(text)
}

impl Widget for Label {
    /// Any label can be added.
    open spec fn valid(&self) -> bool {
        true
    }

    /// The label takes the room of its text, broken into lines at the width
    /// that is free, and emits the lines into the rectangle it was given.
    /// It owns no interaction.
    open spec fn added(&self, before: &Region, after: &Region, response: GuiResponse) -> bool {
        &&& response.interact == before.interact_for(self.spec_size(before), None)
        &&& before.widget_added(after, self.spec_size(before), None, self.spec_cmds(before))
    }

    fn add_to(self, region: &mut Region) -> (response: GuiResponse) {
        let font = region.fonts().font(self.text_style);
        let (text, text_size) = font.layout_multiline(self.text.as_str(), region.width());
        let (rect, interact) = region.reserve_space(text_size, None);
        region.add_text(rect.min, self.text_style, text);
        region.response(interact)
    }
}

/// A push button. The application reads from the response whether it was
/// clicked.
#[derive(Debug)]
pub struct Button {
    pub text: String,
}

impl Button {
    /// A button with the given text on it.
    pub fn new(text: &str) -> (button: Button)
        ensures
            button.text@ == text@,
    {
        Button { text: String::from_str(text) }
    }

    /// The size that the button asks for in `region`: that of its text with
    /// the padding on each side.
    pub open spec fn spec_size(&self, region: &Region) -> Vec2 {
        region.fonts.button.spec_size(
            self.text@,
            region.layout.spec_available_space().x as int,
        ).spec_plus(region.options.button_padding).spec_plus(region.options.button_padding)
    }

    /// The commands that the button emits in `region`: its chrome, which
    /// carries what the region found, and its text inside the padding.
    pub open spec fn spec_cmds(&self, region: &Region) -> Seq<GuiCmdView> {
        let interact = region.interact_for(
            self.spec_size(region),
            Some(region.spec_child_id(self.text@)),
        );
        seq![GuiCmdView::Button { interact, rect: interact.rect }] + text_cmds(
            interact.rect.min.spec_plus(region.options.button_padding),
            TextStyle::Button,
            region.fonts.button.spec_layout(
                self.text@,
                region.layout.spec_available_space().x as int,
            ),
        )
    }
}

impl Widget for Button {
    /// Any button can be added.
    open spec fn valid(&self) -> bool {
        true
    }

    /// The button takes the room of its text and the padding round it under
    /// the identity that its text stands for, and emits its chrome and its
    /// text into the rectangle it was given.
    open spec fn added(&self, before: &Region, after: &Region, response: GuiResponse) -> bool {
        &&& response.interact == before.interact_for(
            self.spec_size(before),
            Some(before.spec_child_id(self.text@)),
        )
        &&& before.widget_added(
            after,
            self.spec_size(before),
            Some(before.spec_child_id(self.text@)),
            self.spec_cmds(before),
        )
    }

    fn add_to(self, region: &mut Region) -> (response: GuiResponse) {
        let id = region.make_child_id(self.text.as_str());
        let text_style = TextStyle::Button;
        let font = region.fonts().font(text_style);
        let (text, text_size) = font.layout_multiline(self.text.as_str(), region.width());
        let padding = region.options().button_padding;
        let (rect, interact) = region.reserve_space(text_size.plus(padding).plus(padding), Some(id));
        region.add_graphic(GuiCmd::Button { interact, rect });
        region.add_text(rect.min.plus(padding), text_style, text);
        assert(final(region).output() =~= old(region).output() + self.spec_cmds(old(region)));
        region.response(interact)
    }
}

/// The size that a checkbox or a radio button with the label `text` asks
/// for in `region`: padding, room for the icon, the text, padding.
pub open spec fn icon_text_size(region: &Region, text: Seq<char>) -> Vec2 {
    region.options.button_padding.spec_plus(
        Vec2 { x: region.options.start_icon_width, y: 0 },
    ).spec_plus(
        region.fonts.button.spec_size(text, region.layout.spec_available_space().x as int),
    ).spec_plus(region.options.button_padding)
}

/// The commands that paint the label `text` of a checkbox or a radio button
/// in `region`: its lines, behind the padding and the icon, measured from the
/// least corner of the widget's rectangle.
pub open spec fn icon_text_cmds(region: &Region, text: Seq<char>) -> Seq<GuiCmdView> {
    text_cmds(
        region.layout.reserved_rect(icon_text_size(region, text)).min.spec_plus(
            region.options.button_padding,
        ).spec_plus(Vec2 { x: region.options.start_icon_width, y: 0 }),
        TextStyle::Button,
        region.fonts.button.spec_layout(text, region.layout.spec_available_space().x as int),
    )
}

/// A box that shows a flag of the application and flips it when clicked.
#[derive(Debug)]
pub struct Checkbox<'a> {
    pub checked: &'a mut bool,
    pub text: String,
}

impl<'a> Checkbox<'a> {
    /// A checkbox that is bound to `checked` for the one call that adds it.
    pub fn new(checked: &'a mut bool, text: &str) -> (checkbox: Checkbox<'a>)
        ensures
            *checkbox.checked == *old(checked),
            *final(checked) == *final(checkbox.checked),
            checkbox.text@ == text@,
    {
        Checkbox { checked, text: String::from_str(text) }
    }
}

impl<'a> Widget for Checkbox<'a> {
    /// Any checkbox can be added.
    open spec fn valid(&self) -> bool {
        true
    }

    /// The checkbox takes the room of its icon, its text and the padding
    /// under the identity that its text stands for, and emits its chrome and
    /// its text. The chrome shows the flag as it is after the click, if
    /// there was one.
    open spec fn added(&self, before: &Region, after: &Region, response: GuiResponse) -> bool {
        &&& response.interact == before.interact_for(
            icon_text_size(before, self.text@),
            Some(before.spec_child_id(self.text@)),
        )
        &&& before.widget_added(
            after,
            icon_text_size(before, self.text@),
            Some(before.spec_child_id(self.text@)),
            seq![
                GuiCmdView::Checkbox {
                    checked: *self.checked != response.interact.clicked,
                    interact: response.interact,
                    rect: response.interact.rect,
                },
            ] + icon_text_cmds(before, self.text@),
        )
    }

    /// The flag is flipped if the box was clicked and left alone if it was
    /// not.
    fn add_to(self, region: &mut Region) -> (response: GuiResponse)
        ensures
            *final(self.checked) == (*old(self.checked) != response.interact.clicked),
    {
        let id = region.make_child_id(self.text.as_str());
        let text_style = TextStyle::Button;
        let font = region.fonts().font(text_style);
        let (text, text_size) = font.layout_multiline(self.text.as_str(), region.width());
        let padding = region.options().button_padding;
        let icon = Vec2 { x: region.options().start_icon_width, y: 0 };
        let (rect, interact) = region.reserve_space(
            padding.plus(icon).plus(text_size).plus(padding),
            Some(id),
        );
        if interact.clicked {
            *self.checked = !*self.checked;
        }
        region.add_graphic(GuiCmd::Checkbox { checked: *self.checked, interact, rect });
        region.add_text(rect.min.plus(padding).plus(icon), text_style, text);
        assert(final(region).output() =~= old(region).output() + (seq![
            GuiCmdView::Checkbox { checked: *self.checked, interact, rect },
        ] + icon_text_cmds(old(region), self.text@)));
        region.response(interact)
    }
}

/// One of several choices of which the application marks one. Which one is
/// marked is the application's business: it reads the click from the
/// response.
#[derive(Debug)]
pub struct RadioButton {
    pub checked: bool,
    pub text: String,
}

impl RadioButton {
    /// A radio button that shows `checked`.
    pub fn new(checked: bool, text: &str) -> (button: RadioButton)
        ensures
            button.checked == checked,
            button.text@ == text@,
    {
        RadioButton { checked, text: String::from_str(text) }
    }
}

/// A radio button that shows `checked`.
pub fn radio(checked: bool, text: &str) -> (button: RadioButton)
    ensures
        button.checked == checked,
        button.text@ == text@,
{
    RadioButton::new(checked, text)
}

impl Widget for RadioButton {
    /// Any radio button can be added.
    open spec fn valid(&self) -> bool {
        true
    }

    /// The radio button takes the room of its icon, its text and the padding
    /// under the identity that its text stands for, and emits its chrome,
    /// which shows the mark it was given, and its text.
    open spec fn added(&self, before: &Region, after: &Region, response: GuiResponse) -> bool {
        &&& response.interact == before.interact_for(
            icon_text_size(before, self.text@),
            Some(before.spec_child_id(self.text@)),
        )
        &&& before.widget_added(
            after,
            icon_text_size(before, self.text@),
            Some(before.spec_child_id(self.text@)),
            seq![
                GuiCmdView::RadioButton {
                    checked: self.checked,
                    interact: response.interact,
                    rect: response.interact.rect,
                },
            ] + icon_text_cmds(before, self.text@),
        )
    }

    fn add_to(self, region: &mut Region) -> (response: GuiResponse) {
        let id = region.make_child_id(self.text.as_str());
        let text_style = TextStyle::Button;
        let font = region.fonts().font(text_style);
        let (text, text_size) = font.layout_multiline(self.text.as_str(), region.width());
        let padding = region.options().button_padding;
        let icon = Vec2 { x: region.options().start_icon_width, y: 0 };
        let (rect, interact) = region.reserve_space(
            padding.plus(icon).plus(text_size).plus(padding),
            Some(id),
        );
        region.add_graphic(GuiCmd::RadioButton { checked: self.checked, interact, rect });
        region.add_text(rect.min.plus(padding).plus(icon), text_style, text);
        assert(final(region).output() =~= old(region).output() + (seq![
            GuiCmdView::RadioButton { checked: self.checked, interact, rect },
        ] + icon_text_cmds(old(region), self.text@)));
        region.response(interact)
    }
}

/// A line that parts what comes before it from what comes after.
#[derive(Debug)]
pub struct Separator {
    /// How thick the line is drawn.
    pub line_width: i32,
    /// How much room the separator takes along the direction of the layout.
    pub width: i32,
}

impl Separator {
    /// A separator that takes six units and draws a line two units thick.
    pub fn new() -> (separator: Separator)
        ensures
            separator.line_width == 2,
            separator.width == 6,
    {
        Separator { line_width: 2, width: 6 }
    }

    /// Sets how thick the line is drawn.
    pub fn line_width(&mut self, line_width: i32) -> (separator: &mut Separator)
        ensures
            *separator == (Separator { line_width, width: old(self).width }),
            *final(self) == *final(separator),
    {
        self.line_width = line_width;
        self
    }

    /// Sets how much room the separator takes along the direction of the
    /// layout.
    pub fn width(&mut self, width: i32) -> (separator: &mut Separator)
        ensures
            *separator == (Separator { line_width: old(self).line_width, width }),
            *final(self) == *final(separator),
    {
        self.width = width;
        self
    }

    /// The size that the separator asks for in `region`: its own width along
    /// the direction of the layout, and all that is free across it.
    pub open spec fn spec_size(&self, region: &Region) -> Vec2 {
        match region.layout.dir {
            Direction::Horizontal => Vec2 {
                x: self.width,
                y: region.layout.spec_available_space().y,
            },
            Direction::Vertical => Vec2 {
                x: region.layout.spec_available_space().x,
                y: self.width,
            },
        }
    }

    /// The two ends of the line through the middle of `rect`, across the
    /// direction of the layout: top to bottom where widgets follow one
    /// another from left to right, left to right where they are stacked.
    pub open spec fn spec_points(dir: Direction, rect: Rect) -> Seq<Vec2> {
        match dir {
            Direction::Horizontal => seq![
                Vec2 { x: rect.spec_center().x, y: rect.min.y },
                Vec2 { x: rect.spec_center().x, y: rect.max.y },
            ],
            Direction::Vertical => seq![
                Vec2 { x: rect.min.x, y: rect.spec_center().y },
                Vec2 { x: rect.max.x, y: rect.spec_center().y },
            ],
        }
    }

    /// The one command that the separator emits in `region`.
    pub open spec fn spec_cmd(&self, region: &Region) -> GuiCmdView {
        GuiCmdView::PaintCommands(
            seq![
                PaintCmdView::Line {
                    points: Separator::spec_points(
                        region.layout.dir,
                        region.layout.reserved_rect(self.spec_size(region)),
                    ),
                    color: Color::white(),
                    width: self.line_width,
                },
            ],
        )
    }
}

impl Widget for Separator {
    /// Any separator can be added.
    open spec fn valid(&self) -> bool {
        true
    }

    /// The separator takes its room and emits one line through the middle
    /// of the rectangle it was given. It owns no interaction.
    open spec fn added(&self, before: &Region, after: &Region, response: GuiResponse) -> bool {
        &&& response.interact == before.interact_for(self.spec_size(before), None)
        &&& before.widget_added(after, self.spec_size(before), None, seq![self.spec_cmd(before)])
    }

    /// The line has two ends. In a horizontal layout the two share their x
    /// coordinate, in a vertical one their y coordinate.
    fn add_to(self, region: &mut Region) -> (response: GuiResponse)
        ensures
            Separator::spec_points(old(region).layout.dir, response.interact.rect).len() == 2,
            old(region).layout.dir == Direction::Horizontal ==> Separator::spec_points(
                old(region).layout.dir,
                response.interact.rect,
            )[0].x == Separator::spec_points(old(region).layout.dir, response.interact.rect)[1].x,
            old(region).layout.dir == Direction::Vertical ==> Separator::spec_points(
                old(region).layout.dir,
                response.interact.rect,
            )[0].y == Separator::spec_points(old(region).layout.dir, response.interact.rect)[1].y,
    {
        let available_space = region.available_space();
        let mut points: Vec<Vec2> = Vec::new();
        let interact = match region.direction() {
            Direction::Horizontal => {
                let (rect, interact) = region.reserve_space(
                    Vec2 { x: self.width, y: available_space.y },
                    None,
                );
                points.push(Vec2 { x: rect.center().x, y: rect.min.y });
                points.push(Vec2 { x: rect.center().x, y: rect.max.y });
                interact
            },
            Direction::Vertical => {
                let (rect, interact) = region.reserve_space(
                    Vec2 { x: available_space.x, y: self.width },
                    None,
                );
                points.push(Vec2 { x: rect.min.x, y: rect.center().y });
                points.push(Vec2 { x: rect.max.x, y: rect.center().y });
                interact
            },
        };
        assert(points@ =~= Separator::spec_points(old(region).layout.dir, interact.rect));
        let paint_cmd = PaintCmd::Line { points, color: Color::white(), width: self.line_width };
        let cmds = vec![paint_cmd];
        let cmd = GuiCmd::PaintCommands(cmds);
        proof {
            assert(paint_cmd_views(cmds@) =~= seq![paint_cmd@]);
            assert(cmd@ == self.spec_cmd(old(region)));
        }
        region.add_graphic(cmd);
        assert(final(region).output() =~= old(region).output() + seq![self.spec_cmd(old(region))]);
        region.response(interact)
    }
}

} // verus!
