use crate::color::Color;
use crate::fonts::fragment_views;
use crate::fonts::offsets_match;
use crate::fonts::Font;
use crate::fonts::Fonts;
use crate::fonts::TextFragment;
use crate::fonts::TextFragmentView;
use crate::fonts::TextStyle;
use crate::math::clamp_int;
use crate::math::Rect;
use crate::math::Vec2;
use crate::types::gui_cmd_views;
use crate::types::GuiCmd;
use crate::types::GuiCmdView;
use crate::types::GuiInput;
use crate::types::InteractInfo;
use crate::types::PaintCmd;
use crate::types::PaintCmdView;
use vstd::prelude::*;
use vstd::string::*;

verus! {

/// The value that hashing starts from.
pub const HASH_SEED: u64 = 0xcbf2_9ce4_8422_2325;

/// The factor of each hashing step.
pub const HASH_FACTOR: u64 = 0x0000_0100_0000_01b3;

/// One hashing step: `word` is folded into `hash` and the result is
/// multiplied by the factor, modulo two to the sixty-fourth.
pub open spec fn spec_mix(hash: u64, word: u64) -> u64 {
    (((hash ^ word) * HASH_FACTOR) % 0x1_0000_0000_0000_0000) as u64
}

/// One hashing step.
#[verifier::when_used_as_spec(spec_mix)]
pub fn mix(hash: u64, word: u64) -> (mixed: u64)
    ensures
        mixed == spec_mix(hash, word),
{
    (hash ^ word).wrapping_mul(HASH_FACTOR)
}

/// The hash of a text: the seed, with the code point of each character
/// folded in from first to last.
pub open spec fn hash_text(text: Seq<char>) -> u64
    decreases text.len(),
{
    if text.len() == 0 {
        HASH_SEED
    } else {
        spec_mix(hash_text(text.drop_last()), text.last() as u64)
    }
}

/// What tells one widget from another, from frame to frame. It depends on
/// nothing but what it was derived from, so the same label under the same
/// parent yields the same identity in every frame.
#[derive(Clone, Copy, PartialEq, Eq, Structural, Debug)]
pub struct Id(pub u64);

impl Id {
    /// The identity of the child `child` of the region with this identity.
    pub open spec fn spec_child(self, child: Id) -> Id {
        Id(spec_mix(spec_mix(HASH_SEED, self.0), child.0))
    }

    /// The identity of the child `child` of the region with this identity.
    #[verifier::when_used_as_spec(spec_child)]
    pub fn child(self, child: Id) -> (id: Id)
        ensures
            id == self.spec_child(child),
    {
        Id(mix(mix(HASH_SEED, self.0), child.0))
    }
}

/// The identity that a label stands for.
pub open spec fn spec_make_id(text: Seq<char>) -> Id {
    Id(hash_text(text))
}

/// The identity that a label stands for.
pub fn make_id(text: &str) -> (id: Id)
    ensures
        id == spec_make_id(text@),
{
    let mut hash: u64 = HASH_SEED;
    assert(text@.take(0) =~= Seq::<char>::empty());
    for c in it: text.chars()
        invariant
            it.seq() == text@,
            hash == hash_text(text@.take(it.index() as int)),
    {
        proof {
            assert(text@.take(it.index() + 1).drop_last() =~= text@.take(it.index() as int));
        }
        hash = mix(hash, c as u64);
    }
    proof {
        assert(text@.take(text@.len() as int) =~= text@);
    }
    Id(hash)
}

/// The axis along which a region places one widget after another.
#[derive(Clone, Copy, PartialEq, Eq, Structural, Debug)]
pub enum Direction {
    Horizontal,
    Vertical,
}

/// The fixed measures that widgets are laid out with.
#[derive(Clone, Copy, PartialEq, Eq, Structural, Debug)]
pub struct LayoutOptions {
    /// The gap left after each widget along the direction of the layout.
    pub item_spacing: Vec2,
    /// The margin between the edge of a button and its text, on each side.
    pub button_padding: Vec2,
    /// The room at the start of a checkbox or a radio button for its icon.
    pub start_icon_width: i32,
}

impl Default for LayoutOptions {
    /// The measures of a plain desktop layout.
    fn default() -> (options: LayoutOptions)
        ensures
            options == (LayoutOptions {
                item_spacing: Vec2 { x: 8, y: 4 },
                button_padding: Vec2 { x: 5, y: 3 },
                start_icon_width: 20,
            }),
    {
        LayoutOptions {
            item_spacing: Vec2 { x: 8, y: 4 },
            button_padding: Vec2 { x: 5, y: 3 },
            start_icon_width: 20,
        }
    }
}

/// Equal columns fit side by side in the width they divide: each column
/// ends where the width ends or before it, and columns that outnumber the
/// units of width are empty.
proof fn lemma_column_fits(width: int, index: int, count: int)
    by (nonlinear_arith)
    requires
        0 <= width,
        0 <= index < count,
    ensures
        0 <= width / count,
        0 <= index * (width / count),
        index * (width / count) + width / count <= width,
        count > width ==> width / count == 0,
{
}

/// Equal columns stand side by side within the free space: each is as wide
/// as the others, an earlier one ends where a later one starts or before it,
/// and none reaches beyond what was free.
pub proof fn lemma_columns_apart(layout: Layout, first: int, second: int, count: int)
    requires
        layout.wf(),
        0 <= first < second < count,
    ensures
        layout.spec_column(first, count).wf(),
        layout.spec_column(second, count).wf(),
        layout.spec_column(first, count).spec_available_space().x == layout.spec_column(
            second,
            count,
        ).spec_available_space().x,
        layout.spec_column(first, count).bounds.max.x <= layout.spec_column(
            second,
            count,
        ).bounds.min.x,
        layout.free_rect().encloses(layout.spec_column(first, count).bounds),
        layout.free_rect().encloses(layout.spec_column(second, count).bounds),
{
    let width = layout.spec_available_space().x as int;
    lemma_column_fits(width, first, count);
    lemma_column_fits(width, second, count);
    assert(first * (width / count) + width / count <= second * (width / count))
        by (nonlinear_arith)
        requires
            first + 1 <= second,
            0 <= width / count,
    ;
}

/// Where a region stands: the rectangle it may fill, the corner at which the
/// next widget goes, and how far the widgets placed so far reach.
#[derive(Clone, Copy, PartialEq, Eq, Structural, Debug)]
pub struct Layout {
    pub id: Id,
    pub dir: Direction,
    /// All that the region may fill.
    pub bounds: Rect,
    /// The least corner of the space that is still free.
    pub cursor: Vec2,
    /// The greatest corner that any widget placed so far reaches.
    pub used: Vec2,
}

impl Layout {
    /// The cursor and the used corner lie within the bounds, and the bounds
    /// are no wider and no higher than an `i32` can say.
    pub open spec fn wf(self) -> bool {
        &&& self.bounds.min.x <= self.cursor.x <= self.bounds.max.x
        &&& self.bounds.min.y <= self.cursor.y <= self.bounds.max.y
        &&& self.bounds.min.x <= self.used.x <= self.bounds.max.x
        &&& self.bounds.min.y <= self.used.y <= self.bounds.max.y
        &&& self.bounds.max.x - self.bounds.min.x <= i32::MAX
        &&& self.bounds.max.y - self.bounds.min.y <= i32::MAX
    }

    /// The space that is still free: from the cursor to the greatest corner
    /// of the bounds.
    pub open spec fn spec_available_space(self) -> Vec2 {
        Vec2 {
            x: (self.bounds.max.x - self.cursor.x) as i32,
            y: (self.bounds.max.y - self.cursor.y) as i32,
        }
    }

    /// As much of `size` as is free: nothing negative, and no more than is
    /// available.
    pub open spec fn granted(self, size: Vec2) -> Vec2 {
        Vec2 {
            x: clamp_int(size.x as int, 0, self.spec_available_space().x as int) as i32,
            y: clamp_int(size.y as int, 0, self.spec_available_space().y as int) as i32,
        }
    }

    /// The rectangle that a request for `size` is given: it starts at the
    /// cursor and spans what is granted.
    pub open spec fn reserved_rect(self, size: Vec2) -> Rect {
        Rect {
            min: self.cursor,
            max: Vec2 {
                x: (self.cursor.x + self.granted(size).x) as i32,
                y: (self.cursor.y + self.granted(size).y) as i32,
            },
        }
    }

    /// The layout after `size` was reserved: the cursor has moved past the
    /// new rectangle and the gap behind it, along the layout's direction and
    /// no further than the bounds; the used corner reaches the rectangle.
    pub open spec fn after_reserve(self, size: Vec2, spacing: Vec2) -> Layout {
        let rect = self.reserved_rect(size);
        Layout {
            id: self.id,
            dir: self.dir,
            bounds: self.bounds,
            cursor: match self.dir {
                Direction::Horizontal => Vec2 {
                    x: clamp_int(
                        rect.max.x + spacing.x,
                        rect.max.x as int,
                        self.bounds.max.x as int,
                    ) as i32,
                    y: self.cursor.y,
                },
                Direction::Vertical => Vec2 {
                    x: self.cursor.x,
                    y: clamp_int(
                        rect.max.y + spacing.y,
                        rect.max.y as int,
                        self.bounds.max.y as int,
                    ) as i32,
                },
            },
            used: Vec2 {
                x: if rect.max.x > self.used.x {
                    rect.max.x
                } else {
                    self.used.x
                },
                y: if rect.max.y > self.used.y {
                    rect.max.y
                } else {
                    self.used.y
                },
            },
        }
    }

    /// The space that is still free, as a rectangle.
    pub open spec fn free_rect(self) -> Rect {
        Rect { min: self.cursor, max: self.bounds.max }
    }

    /// This layout is `before` after some widgets were placed: the same
    /// region, with the cursor and the used corner no nearer the origin.
    pub open spec fn follows(self, before: Layout) -> bool {
        &&& self.id == before.id
        &&& self.dir == before.dir
        &&& self.bounds == before.bounds
        &&& before.cursor.x <= self.cursor.x
        &&& before.cursor.y <= self.cursor.y
        &&& before.used.x <= self.used.x
        &&& before.used.y <= self.used.y
    }

    /// Column number `index` of the `count` equal columns that the free
    /// space splits into, left to right: a layout of its own, as wide as the
    /// free width divided by `count`, rounded down, in which widgets are
    /// stacked from the cursor's height downward.
    pub open spec fn spec_column(self, index: int, count: int) -> Layout {
        let width = self.spec_available_space().x as int / count;
        let corner = Vec2 { x: (self.cursor.x + index * width) as i32, y: self.cursor.y };
        Layout {
            id: self.id,
            dir: Direction::Vertical,
            bounds: Rect {
                min: corner,
                max: Vec2 { x: (corner.x + width) as i32, y: self.bounds.max.y },
            },
            cursor: corner,
            used: corner,
        }
    }

    /// How far down the widgets placed so far reach, measured from the top
    /// of the bounds.
    pub open spec fn spec_used_height(self) -> int {
        self.used.y - self.bounds.min.y
    }

    /// How far down the widgets placed so far reach, measured from the top
    /// of the bounds.
    pub fn used_height(self) -> (height: i32)
        requires
            self.wf(),
        ensures
            height == self.spec_used_height(),
            0 <= height,
    {
        (self.used.y as i64 - self.bounds.min.y as i64) as i32
    }

    /// Column number `index` of the `count` equal columns that the free
    /// space splits into.
    pub fn column(self, index: usize, count: usize) -> (column: Layout)
        requires
            self.wf(),
            index < count,
        ensures
            column == self.spec_column(index as int, count as int),
            column.wf(),
            self.free_rect().encloses(column.bounds),
    {
        let available = self.available_space();
        let mut width: i32 = 0;
        let mut shift: i32 = 0;
        if count as u64 <= available.x as u64 {
            width = available.x / (count as i32);
            proof {
                lemma_column_fits(available.x as int, index as int, count as int);
            }
            shift = (index as i32) * width;
        } else {
            proof {
                lemma_column_fits(available.x as int, index as int, count as int);
                assert(index * 0 == 0) by (nonlinear_arith);
            }
        }
        let corner = Vec2 { x: self.cursor.x + shift, y: self.cursor.y };
        Layout {
            id: self.id,
            dir: Direction::Vertical,
            bounds: Rect { min: corner, max: Vec2 { x: corner.x + width, y: self.bounds.max.y } },
            cursor: corner,
            used: corner,
        }
    }

    /// The space that is still free.
    #[verifier::when_used_as_spec(spec_available_space)]
    pub fn available_space(self) -> (space: Vec2)
        requires
            self.wf(),
        ensures
            space == self.spec_available_space(),
            0 <= space.x,
            0 <= space.y,
    {
        Vec2 {
            x: (self.bounds.max.x as i64 - self.cursor.x as i64) as i32,
            y: (self.bounds.max.y as i64 - self.cursor.y as i64) as i32,
        }
    }

    /// Takes `size`, or as much of it as is free, at the cursor and moves on.
    pub fn reserve(&mut self, size: Vec2, spacing: Vec2) -> (rect: Rect)
        requires
            old(self).wf(),
        ensures
            final(self).wf(),
            rect == old(self).reserved_rect(size),
            *final(self) == old(self).after_reserve(size, spacing),
            rect.well_formed(),
            old(self).bounds.encloses(rect),
    {
        let available = self.available_space();
        let width: i32 = if size.x < 0 {
            0
        } else if size.x > available.x {
            available.x
        } else {
            size.x
        };
        let height: i32 = if size.y < 0 {
            0
        } else if size.y > available.y {
            available.y
        } else {
            size.y
        };
        let max = Vec2 { x: self.cursor.x + width, y: self.cursor.y + height };
        let rect = Rect { min: self.cursor, max };
        match self.dir {
            Direction::Horizontal => {
                let next: i64 = max.x as i64 + spacing.x as i64;
                self.cursor.x = if next < max.x as i64 {
                    max.x
                } else if next > self.bounds.max.x as i64 {
                    self.bounds.max.x
                } else {
                    next as i32
                };
            },
            Direction::Vertical => {
                let next: i64 = max.y as i64 + spacing.y as i64;
                self.cursor.y = if next < max.y as i64 {
                    max.y
                } else if next > self.bounds.max.y as i64 {
                    self.bounds.max.y
                } else {
                    next as i32
                };
            },
        }
        if max.x > self.used.x {
            self.used.x = max.x;
        }
        if max.y > self.used.y {
            self.used.y = max.y;
        }
        rect
    }
}

/// What a widget call gives back to the application.
#[derive(Clone, Copy, PartialEq, Eq, Structural, Debug)]
pub struct GuiResponse {
    /// What the region found when it reserved the widget's space.
    pub interact: InteractInfo,
}

impl GuiResponse {
    /// Is the pointer over the widget?
    pub fn hovered(&self) -> (hovered: bool)
        ensures
            hovered == self.interact.hovered,
    {
        self.interact.hovered
    }

    /// Did the button go down over the widget this frame?
    pub fn clicked(&self) -> (clicked: bool)
        ensures
            clicked == self.interact.clicked,
    {
        self.interact.clicked
    }

    /// Does the widget own the interaction in progress?
    pub fn active(&self) -> (active: bool)
        ensures
            active == self.interact.active,
    {
        self.interact.active
    }

    /// The part of the screen that the widget was given.
    pub fn rect(&self) -> (rect: Rect)
        ensures
            rect == self.interact.rect,
    {
        self.interact.rect
    }
}

/// Every command of the run is well formed.
pub open spec fn all_well_formed(cmds: Seq<GuiCmdView>) -> bool {
    forall|k: int| 0 <= k < cmds.len() ==> (#[trigger] cmds[k]).well_formed()
}

/// The command that paints one line of text in a block whose top left
/// corner is `pos`.
pub open spec fn text_cmd(pos: Vec2, style: TextStyle, fragment: TextFragmentView) -> GuiCmdView {
    GuiCmdView::PaintCommands(
        seq![
            PaintCmdView::Text {
                color: Color::white(),
                pos: pos.spec_plus(Vec2 { x: 0, y: fragment.y_offset }),
                text: fragment.text,
                text_style: style,
                x_offsets: fragment.x_offsets,
            },
        ],
    )
}

/// The commands that paint a block of text, one for each line.
pub open spec fn text_cmds(pos: Vec2, style: TextStyle, fragments: Seq<TextFragmentView>) -> Seq<
    GuiCmdView,
> {
    Seq::new(fragments.len(), |k: int| text_cmd(pos, style, fragments[k]))
}

/// Is the pointer of `input` over `rect`?
pub open spec fn spec_hovers(input: GuiInput, rect: Rect) -> bool {
    input.mouse_pos matches Some(pos) && rect.spec_contains(pos)
}

/// Who owns the interaction once a widget was given `rect` under `id`: the
/// owner so far, or `id` if there was none and the button went down over
/// `rect`.
pub open spec fn spec_active_after(
    input: GuiInput,
    active_id: Option<Id>,
    rect: Rect,
    id: Option<Id>,
) -> Option<Id> {
    if id is Some && active_id is None && input.mouse_clicked && spec_hovers(input, rect) {
        id
    } else {
        active_id
    }
}

/// What a widget that was given `rect` under `id` learns: whether the
/// pointer is over it, whether the button went down over it this frame, and
/// whether it owns the interaction now.
pub open spec fn spec_interact(
    input: GuiInput,
    active_id: Option<Id>,
    rect: Rect,
    id: Option<Id>,
) -> InteractInfo {
    InteractInfo {
        hovered: spec_hovers(input, rect),
        clicked: spec_hovers(input, rect) && input.mouse_clicked,
        active: id is Some && spec_active_after(input, active_id, rect, id) == id,
        rect,
    }
}

/// The commands that paint fragments with a start for each character are
/// well formed: each text command names a start for each of its characters.
pub proof fn lemma_text_cmds_well_formed(
    pos: Vec2,
    style: TextStyle,
    fragments: Seq<TextFragmentView>,
)
    requires
        offsets_match(fragments),
    ensures
        all_well_formed(text_cmds(pos, style, fragments)),
{
    assert forall|k: int| 0 <= k < fragments.len() implies (#[trigger] text_cmds(
        pos,
        style,
        fragments,
    )[k]).well_formed() by {
        assert(fragments[k].x_offsets.len() == fragments[k].text.len());
        assert(text_cmds(pos, style, fragments)[k] == text_cmd(pos, style, fragments[k]));
    }
}

/// Whatever the font, the text and the width: the commands that paint the
/// laid-out text are well formed, so each of them names a start for each of
/// its characters.
pub proof fn lemma_laid_out_text_well_formed(
    font: Font,
    text: Seq<char>,
    max_width: int,
    pos: Vec2,
    style: TextStyle,
)
    ensures
        all_well_formed(text_cmds(pos, style, font.spec_layout(text, max_width))),
{
    font.lemma_layout_well_formed(text, max_width);
    lemma_text_cmds_well_formed(pos, style, font.spec_layout(text, max_width));
}

/// At most one identity is active in a frame: once a widget has answered
/// that it is active, no widget of another identity that reserves its space
/// after it is active too, wherever the two lie.
pub proof fn lemma_one_owner(
    input: GuiInput,
    active_id: Option<Id>,
    first_rect: Rect,
    first_id: Option<Id>,
    second_rect: Rect,
    second_id: Option<Id>,
)
    requires
        first_id != second_id,
        spec_interact(input, active_id, first_rect, first_id).active,
    ensures
        !spec_interact(
            input,
            spec_active_after(input, active_id, first_rect, first_id),
            second_rect,
            second_id,
        ).active,
        spec_active_after(
            input,
            spec_active_after(input, active_id, first_rect, first_id),
            second_rect,
            second_id,
        ) == first_id,
{
}

/// A drag goes on wherever the pointer is: the widget that owns the
/// interaction is active whatever rectangle it is given, and remains the
/// owner.
pub proof fn lemma_owner_stays(input: GuiInput, id: Id, rect: Rect)
    ensures
        spec_interact(input, Some(id), rect, Some(id)).active,
        spec_active_after(input, Some(id), rect, Some(id)) == Some(id),
{
}

/// The layout context of one frame: the frame's input and measures, the
/// identity that owns the interaction in progress, the commands emitted so
/// far, and where the next widget goes.
#[derive(Debug)]
pub struct Region {
    /// The input of this frame.
    pub input: GuiInput,
    pub options: LayoutOptions,
    pub fonts: Fonts,
    /// The widget that owns the interaction in progress, if one does.
    pub active_id: Option<Id>,
    /// What the widgets of this frame have emitted, in order.
    pub gui_cmds: Vec<GuiCmd>,
    pub layout: Layout,
}

impl Region {
    /// The commands emitted so far, as plain values.
    pub open spec fn output(&self) -> Seq<GuiCmdView> {
        gui_cmd_views(self.gui_cmds@)
    }

    /// The layout is in order, every command emitted so far is well formed,
    /// the input's edges agree with its button, and no widget owns an
    /// interaction while the button is up.
    pub open spec fn wf(&self) -> bool {
        &&& self.layout.wf()
        &&& self.input.edges_consistent()
        &&& self.active_id is Some ==> self.input.mouse_down
        &&& all_well_formed(self.output())
    }

    /// Both regions belong to the same frame: same input, measures and fonts.
    pub open spec fn same_frame(&self, other: &Region) -> bool {
        &&& self.input == other.input
        &&& self.options == other.options
        &&& self.fonts == other.fonts
    }

    /// Is the pointer over `rect`?
    pub open spec fn hovers(&self, rect: Rect) -> bool {
        spec_hovers(self.input, rect)
    }

    /// Who owns the interaction once `size` was reserved under `id`.
    pub open spec fn active_after(&self, size: Vec2, id: Option<Id>) -> Option<Id> {
        spec_active_after(self.input, self.active_id, self.layout.reserved_rect(size), id)
    }

    /// What a widget that reserves `size` under `id` learns.
    pub open spec fn interact_for(&self, size: Vec2, id: Option<Id>) -> InteractInfo {
        spec_interact(self.input, self.active_id, self.layout.reserved_rect(size), id)
    }

    /// The identity of the child that `text` labels.
    pub open spec fn spec_child_id(&self, text: Seq<char>) -> Id {
        self.layout.id.spec_child(spec_make_id(text))
    }

    /// The identity of the child that carries `child`, if it carries one.
    pub open spec fn spec_combined_id(&self, child: Option<Id>) -> Option<Id> {
        match child {
            Some(child) => Some(self.layout.id.spec_child(child)),
            None => None,
        }
    }

    /// A region that fills `bounds`, with nothing emitted yet. `active_id`
    /// is the owner that the frame before left behind; it is dropped when
    /// the button is up.
    pub fn new(
        input: GuiInput,
        options: LayoutOptions,
        fonts: Fonts,
        active_id: Option<Id>,
        bounds: Rect,
        dir: Direction,
    ) -> (region: Region)
        requires
            input.edges_consistent(),
            bounds.well_formed(),
            bounds.max.x - bounds.min.x <= i32::MAX,
            bounds.max.y - bounds.min.y <= i32::MAX,
        ensures
            region.wf(),
            region.input == input,
            region.options == options,
            region.fonts == fonts,
            region.active_id == if input.mouse_down {
                active_id
            } else {
                None
            },
            region.output() == Seq::<GuiCmdView>::empty(),
            region.layout == (Layout {
                id: Id(0),
                dir,
                bounds,
                cursor: bounds.min,
                used: bounds.min,
            }),
    {
        let region = Region {
            input,
            options,
            fonts,
            active_id: if input.mouse_down {
                active_id
            } else {
                None
            },
            gui_cmds: Vec::new(),
            layout: Layout { id: Id(0), dir, bounds, cursor: bounds.min, used: bounds.min },
        };
        assert(region.output() =~= Seq::<GuiCmdView>::empty());
        region
    }

    /// A region that fills the screen of `input`, from the origin, in which
    /// widgets are stacked.
    pub fn whole_screen(
        input: GuiInput,
        options: LayoutOptions,
        fonts: Fonts,
        active_id: Option<Id>,
    ) -> (region: Region)
        requires
            input.edges_consistent(),
        ensures
            region.wf(),
            region.input == input,
            region.options == options,
            region.fonts == fonts,
            region.active_id == if input.mouse_down {
                active_id
            } else {
                None
            },
            region.output() == Seq::<GuiCmdView>::empty(),
            region.layout.id == Id(0),
            region.layout.dir == Direction::Vertical,
            region.layout.cursor == (Vec2 { x: 0, y: 0 }),
            region.layout.used == (Vec2 { x: 0, y: 0 }),
            region.layout.bounds.min == (Vec2 { x: 0, y: 0 }),
            region.layout.bounds.max.x == clamp_int(input.screen_size.x as int, 0, i32::MAX as int),
            region.layout.bounds.max.y == clamp_int(input.screen_size.y as int, 0, i32::MAX as int),
    {
        let width: i32 = if input.screen_size.x < 0 {
            0
        } else {
            input.screen_size.x
        };
        let height: i32 = if input.screen_size.y < 0 {
            0
        } else {
            input.screen_size.y
        };
        let bounds = Rect { min: Vec2 { x: 0, y: 0 }, max: Vec2 { x: width, y: height } };
        Region::new(input, options, fonts, active_id, bounds, Direction::Vertical)
    }

    /// The input of this frame.
    pub fn input(&self) -> (input: GuiInput)
        ensures
            input == self.input,
    {
        self.input
    }

    /// The measures of this frame.
    pub fn options(&self) -> (options: LayoutOptions)
        ensures
            options == self.options,
    {
        self.options
    }

    /// The fonts of this frame.
    pub fn fonts(&self) -> (fonts: &Fonts)
        ensures
            *fonts == self.fonts,
    {
        &self.fonts
    }

    /// The corner at which the next widget goes.
    pub fn cursor(&self) -> (cursor: Vec2)
        ensures
            cursor == self.layout.cursor,
    {
        self.layout.cursor
    }

    /// The axis along which widgets follow one another.
    pub fn direction(&self) -> (dir: Direction)
        ensures
            dir == self.layout.dir,
    {
        self.layout.dir
    }

    /// The space that is still free.
    pub fn available_space(&self) -> (space: Vec2)
        requires
            self.layout.wf(),
        ensures
            space == self.layout.spec_available_space(),
            0 <= space.x,
            0 <= space.y,
    {
        self.layout.available_space()
    }

    /// The width that is still free.
    pub fn width(&self) -> (width: i32)
        requires
            self.layout.wf(),
        ensures
            width == self.layout.spec_available_space().x,
            0 <= width,
    {
        self.layout.available_space().x
    }

    /// The identity of the child that `text` labels.
    pub fn make_child_id(&self, text: &str) -> (id: Id)
        ensures
            id == self.spec_child_id(text@),
    {
        self.layout.id.child(make_id(text))
    }

    /// The identity of the child that carries `child`, if it carries one.
    pub fn combined_id(&self, child: Option<Id>) -> (id: Option<Id>)
        ensures
            id == self.spec_combined_id(child),
    {
        match child {
            Some(child) => Some(self.layout.id.child(child)),
            None => None,
        }
    }

    /// Reserves `size`, or as much of it as is free, without looking at the
    /// pointer.
    pub fn reserve_space_inner(&mut self, size: Vec2) -> (rect: Rect)
        requires
            old(self).wf(),
        ensures
            final(self).wf(),
            final(self).same_frame(old(self)),
            final(self).active_id == old(self).active_id,
            final(self).gui_cmds == old(self).gui_cmds,
            rect == old(self).layout.reserved_rect(size),
            final(self).layout == old(self).layout.after_reserve(size, old(self).options.item_spacing),
            rect.well_formed(),
            old(self).layout.bounds.encloses(rect),
    {
        let spacing = self.options.item_spacing;
        self.layout.reserve(size, spacing)
    }

    /// Reserves `size`, or as much of it as is free, for a widget and tells
    /// what the pointer does to it. The rectangle never reaches beyond the
    /// space that was free. A widget that passes an identity becomes the
    /// owner of the interaction when the button goes down over it and no
    /// widget owns one; it is active as long as it is the owner.
    pub fn reserve_space(&mut self, size: Vec2, interaction_id: Option<Id>) -> (reserved: (
        Rect,
        InteractInfo,
    ))
        requires
            old(self).wf(),
        ensures
            final(self).wf(),
            final(self).same_frame(old(self)),
            final(self).gui_cmds == old(self).gui_cmds,
            reserved.1 == old(self).interact_for(size, interaction_id),
            reserved.0 == reserved.1.rect,
            final(self).active_id == old(self).active_after(size, interaction_id),
            final(self).layout == old(self).layout.after_reserve(size, old(self).options.item_spacing),
            reserved.0.well_formed(),
            old(self).layout.bounds.encloses(reserved.0),
            old(self).active_id is Some ==> final(self).active_id == old(self).active_id,
            reserved.1.active ==> final(self).active_id == interaction_id,
    {
        let spacing = self.options.item_spacing;
        let rect = self.layout.reserve(size, spacing);
        let hovered = match self.input.mouse_pos {
            Some(pos) => rect.contains(pos),
            None => false,
        };
        let clicked = hovered && self.input.mouse_clicked;
        let active = match interaction_id {
            Some(id) => {
                if clicked && self.active_id.is_none() {
                    self.active_id = Some(id);
                }
                self.active_id == Some(id)
            },
            None => false,
        };
        (rect, InteractInfo { hovered, clicked, active, rect })
    }

    /// Puts one command at the end of the frame's output.
    pub fn add_graphic(&mut self, cmd: GuiCmd)
        requires
            old(self).wf(),
            cmd@.well_formed(),
        ensures
            final(self).wf(),
            final(self).same_frame(old(self)),
            final(self).active_id == old(self).active_id,
            final(self).layout == old(self).layout,
            final(self).output() == old(self).output().push(cmd@),
    {
        self.gui_cmds.push(cmd);
        assert(self.output() =~= old(self).output().push(cmd@));
    }

    /// Emits a block of text whose top left corner is `pos`: one text
    /// command for each line, top to bottom.
    pub fn add_text(&mut self, pos: Vec2, text_style: TextStyle, text: Vec<TextFragment>)
        requires
            old(self).wf(),
            offsets_match(fragment_views(text@)),
        ensures
            final(self).wf(),
            final(self).same_frame(old(self)),
            final(self).active_id == old(self).active_id,
            final(self).layout == old(self).layout,
            final(self).output() == old(self).output() + text_cmds(
                pos,
                text_style,
                fragment_views(text@),
            ),
    {
        let ghost before = self.output();
        let ghost lines = fragment_views(text@);
        let ghost entry = *self;
        assert(self.output() =~= before + text_cmds(pos, text_style, lines.take(0)));
        for fragment in it: text
            invariant
                self.wf(),
                self.same_frame(&entry),
                self.active_id == entry.active_id,
                self.layout == entry.layout,
                lines == fragment_views(it.seq()),
                offsets_match(lines),
                self.output() == before + text_cmds(pos, text_style, lines.take(it.index() as int)),
        {
            let ghost line = fragment@;
            assert(line == lines[it.index() as int]);
            let cmd = PaintCmd::Text {
                color: Color::white(),
                pos: pos.plus(Vec2 { x: 0, y: fragment.y_offset }),
                text: fragment.text,
                text_style,
                x_offsets: fragment.x_offsets,
            };
            let cmds = vec![cmd];
            let gui_cmd = GuiCmd::PaintCommands(cmds);
            proof {
                assert(gui_cmd@ == text_cmd(pos, text_style, line)) by {
                    assert(crate::types::paint_cmd_views(cmds@) =~= seq![cmd@]);
                }
                assert(before + text_cmds(pos, text_style, lines.take(it.index() as int + 1))
                    =~= (before + text_cmds(pos, text_style, lines.take(it.index() as int))).push(
                    text_cmd(pos, text_style, line),
                ));
            }
            self.add_graphic(gui_cmd);
        }
        assert(lines.take(lines.len() as int) =~= lines);
    }

    /// Puts `layout` in place of the region's own and hands back the one it
    /// leaves: this is how a widget lays part of itself out in a column and
    /// returns to where it was.
    pub fn enter(&mut self, layout: Layout) -> (left: Layout)
        requires
            old(self).wf(),
            layout.wf(),
        ensures
            final(self).wf(),
            final(self).same_frame(old(self)),
            final(self).active_id == old(self).active_id,
            final(self).gui_cmds == old(self).gui_cmds,
            final(self).layout == layout,
            left == old(self).layout,
    {
        let left = self.layout;
        self.layout = layout;
        left
    }

    /// Wraps what the region found into the answer for the application.
    pub fn response(&self, interact: InteractInfo) -> (response: GuiResponse)
        ensures
            response.interact == interact,
    {
        GuiResponse { interact }
    }
}

} // verus!
