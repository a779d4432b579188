use crate::color::Color;
use crate::fonts::TextStyle;
use crate::math::Rect;
use crate::math::Vec2;
use crate::mesher::Mesh;
use crate::mesher::MeshView;
use vstd::prelude::*;

verus! {

/// What the host hands over each frame.
#[derive(Clone, Copy, PartialEq, Eq, Structural, Debug)]
pub struct RawInput {
    /// Is the pointer's button down?
    pub mouse_down: bool,
    /// Where the pointer is, if it is anywhere.
    pub mouse_pos: Option<Vec2>,
    /// The extent of the screen.
    pub screen_size: Vec2,
    /// How many device pixels one point spans, on the host's fixed-point scale.
    pub pixels_per_point: i32,
}

/// The input of one frame: the host's sample together with what changed
/// since the sample before it.
#[derive(Clone, Copy, PartialEq, Eq, Structural, Debug)]
pub struct GuiInput {
    /// Is the pointer's button down?
    pub mouse_down: bool,
    /// The button went down between the two samples.
    pub mouse_clicked: bool,
    /// The button went up between the two samples.
    pub mouse_released: bool,
    /// Where the pointer is, if it is anywhere.
    pub mouse_pos: Option<Vec2>,
    /// The extent of the screen.
    pub screen_size: Vec2,
    /// How many device pixels one point spans, on the host's fixed-point scale.
    pub pixels_per_point: i32,
}

impl GuiInput {
    /// The frame input that follows from the sample before and the new one.
    pub open spec fn spec_from_last_and_new(last: RawInput, new: RawInput) -> GuiInput {
        GuiInput {
            mouse_down: new.mouse_down,
            mouse_clicked: !last.mouse_down && new.mouse_down,
            mouse_released: last.mouse_down && !new.mouse_down,
            mouse_pos: new.mouse_pos,
            screen_size: new.screen_size,
            pixels_per_point: new.pixels_per_point,
        }
    }

    /// Neither edge is reported unless the button changed, and never both.
    pub open spec fn edges_consistent(self) -> bool {
        &&& !(self.mouse_clicked && self.mouse_released)
        &&& self.mouse_clicked ==> self.mouse_down
        &&& self.mouse_released ==> !self.mouse_down
    }

    /// Derives the input of a frame from the host's previous sample and its
    /// new one. On the first frame the host passes a previous sample whose
    /// button is up, so that no click is reported out of nothing.
    pub fn from_last_and_new(last: &RawInput, new: &RawInput) -> (input: GuiInput)
        ensures
            input == GuiInput::spec_from_last_and_new(*last, *new),
            input.edges_consistent(),
            last.mouse_down == new.mouse_down ==> !input.mouse_clicked && !input.mouse_released,
            !last.mouse_down && new.mouse_down ==> input.mouse_clicked && !input.mouse_released,
            last.mouse_down && !new.mouse_down ==> !input.mouse_clicked && input.mouse_released,
    {
        GuiInput {
            mouse_down: new.mouse_down,
            mouse_clicked: !last.mouse_down && new.mouse_down,
            mouse_released: last.mouse_down && !new.mouse_down,
            mouse_pos: new.mouse_pos,
            screen_size: new.screen_size,
            pixels_per_point: new.pixels_per_point,
        }
    }
}

/// What a widget learns about the pointer when its space is reserved.
#[derive(Clone, Copy, PartialEq, Eq, Structural, Debug)]
pub struct InteractInfo {
    /// The pointer is over the widget.
    pub hovered: bool,
    /// The button went down over the widget this frame.
    pub clicked: bool,
    /// The widget owns the interaction in progress, such as a drag.
    pub active: bool,
    /// The part of the screen that the widget was given.
    pub rect: Rect,
}

/// A stroke round a filled shape.
#[derive(Clone, Copy, PartialEq, Eq, Structural, Debug)]
pub struct Outline {
    pub width: i32,
    pub color: Color,
}

/// One drawable primitive.
#[derive(Clone, PartialEq, Eq, Debug)]
pub enum PaintCmd {
    Circle { center: Vec2, fill_color: Option<Color>, outline: Option<Outline>, radius: i32 },
    Line { points: Vec<Vec2>, color: Color, width: i32 },
    Rect { corner_radius: i32, fill_color: Option<Color>, outline: Option<Outline>, rect: Rect },
    /// A single line of text.
    Text {
        color: Color,
        /// The top left corner of the first character.
        pos: Vec2,
        text: String,
        text_style: TextStyle,
        /// Where each character of the text starts, measured from `pos`.
        x_offsets: Vec<i32>,
    },
    /// Triangles that were tessellated elsewhere.
    Mesh(Mesh),
}

/// What a `PaintCmd` holds, as plain sequences.
pub enum PaintCmdView {
    Circle { center: Vec2, fill_color: Option<Color>, outline: Option<Outline>, radius: i32 },
    Line { points: Seq<Vec2>, color: Color, width: i32 },
    Rect { corner_radius: i32, fill_color: Option<Color>, outline: Option<Outline>, rect: Rect },
    Text { color: Color, pos: Vec2, text: Seq<char>, text_style: TextStyle, x_offsets: Seq<i32> },
    Mesh(MeshView),
}

impl View for PaintCmd {
    type V = PaintCmdView;

    open spec fn view(&self) -> PaintCmdView {
        match *self {
            PaintCmd::Circle { center, fill_color, outline, radius } => PaintCmdView::Circle {
                center,
                fill_color,
                outline,
                radius,
            },
            PaintCmd::Line { points, color, width } => PaintCmdView::Line {
                points: points@,
                color,
                width,
            },
            PaintCmd::Rect { corner_radius, fill_color, outline, rect } => PaintCmdView::Rect {
                corner_radius,
                fill_color,
                outline,
                rect,
            },
            PaintCmd::Text { color, pos, text, text_style, x_offsets } => PaintCmdView::Text {
                color,
                pos,
                text: text@,
                text_style,
                x_offsets: x_offsets@,
            },
            PaintCmd::Mesh(mesh) => PaintCmdView::Mesh(mesh@),
        }
    }
}

impl PaintCmdView {
    /// A text command names a start for each of its characters, no more and
    /// no fewer. The other primitives have nothing to get wrong: a shape with
    /// neither fill nor outline is in order and merely invisible.
    pub open spec fn well_formed(self) -> bool {
        self matches PaintCmdView::Text { text, x_offsets, .. } ==> x_offsets.len() == text.len()
    }
}

/// The views of a run of paint commands, in order.
pub open spec fn paint_cmd_views(cmds: Seq<PaintCmd>) -> Seq<PaintCmdView> {
    Seq::new(cmds.len(), |k: int| cmds[k]@)
}

/// What a widget puts on the frame's output list: finished primitives, or
/// its own chrome for the renderer to style.
#[derive(Clone, PartialEq, Eq, Debug)]
pub enum GuiCmd {
    PaintCommands(Vec<PaintCmd>),
    Button { interact: InteractInfo, rect: Rect },
    Checkbox { checked: bool, interact: InteractInfo, rect: Rect },
    RadioButton { checked: bool, interact: InteractInfo, rect: Rect },
    Slider { interact: InteractInfo, max: i32, min: i32, rect: Rect, value: i32 },
}

/// What a `GuiCmd` holds, as plain sequences.
pub enum GuiCmdView {
    PaintCommands(Seq<PaintCmdView>),
    Button { interact: InteractInfo, rect: Rect },
    Checkbox { checked: bool, interact: InteractInfo, rect: Rect },
    RadioButton { checked: bool, interact: InteractInfo, rect: Rect },
    Slider { interact: InteractInfo, max: i32, min: i32, rect: Rect, value: i32 },
}

impl View for GuiCmd {
    type V = GuiCmdView;

    open spec fn view(&self) -> GuiCmdView {
        match *self {
            GuiCmd::PaintCommands(cmds) => GuiCmdView::PaintCommands(paint_cmd_views(cmds@)),
            GuiCmd::Button { interact, rect } => GuiCmdView::Button { interact, rect },
            GuiCmd::Checkbox { checked, interact, rect } => GuiCmdView::Checkbox {
                checked,
                interact,
                rect,
            },
            GuiCmd::RadioButton { checked, interact, rect } => GuiCmdView::RadioButton {
                checked,
                interact,
                rect,
            },
            GuiCmd::Slider { interact, max, min, rect, value } => GuiCmdView::Slider {
                interact,
                max,
                min,
                rect,
                value,
            },
        }
    }
}

impl GuiCmdView {
    /// Every primitive that the command carries is well formed.
    pub open spec fn well_formed(self) -> bool {
        self matches GuiCmdView::PaintCommands(cmds) ==> forall|k: int|
            0 <= k < cmds.len() ==> (#[trigger] cmds[k]).well_formed()
    }
}

/// The views of a run of commands, in order.
pub open spec fn gui_cmd_views(cmds: Seq<GuiCmd>) -> Seq<GuiCmdView> {
    Seq::new(cmds.len(), |k: int| cmds[k]@)
}

} // verus!
