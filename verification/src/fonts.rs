use crate::math::saturate;
use crate::math::Vec2;
use vstd::prelude::*;
use vstd::string::*;

verus! {

/// Which of the fonts of a frame a piece of text is set in.
#[derive(Clone, Copy, PartialEq, Eq, Structural, Debug)]
pub enum TextStyle {
    Body,
    Button,
    Heading,
}

/// One line of laid-out text.
#[derive(Clone, PartialEq, Eq, Debug)]
pub struct TextFragment {
    /// Where each character starts, measured from the left edge of the line.
    pub x_offsets: Vec<i32>,
    /// How far the line's top lies below the top of the block.
    pub y_offset: i32,
    /// The characters of the line.
    pub text: String,
}

/// What a `TextFragment` holds, as plain sequences.
pub struct TextFragmentView {
    pub x_offsets: Seq<i32>,
    pub y_offset: i32,
    pub text: Seq<char>,
}

impl View for TextFragment {
    type V = TextFragmentView;

    open spec fn view(&self) -> TextFragmentView {
        TextFragmentView { x_offsets: self.x_offsets@, y_offset: self.y_offset, text: self.text@ }
    }
}

/// The views of a run of fragments, in order.
pub open spec fn fragment_views(fragments: Seq<TextFragment>) -> Seq<TextFragmentView> {
    Seq::new(fragments.len(), |k: int| fragments[k]@)
}

/// Every fragment names a start for each of its characters, no more and no
/// fewer.
pub open spec fn offsets_match(fragments: Seq<TextFragmentView>) -> bool {
    forall|k: int|
        0 <= k < fragments.len() ==> (#[trigger] fragments[k]).x_offsets.len()
            == fragments[k].text.len()
}

/// The first position after `end` at which a line may start: a line feed
/// that ends a line is consumed, any other character opens the next line.
pub open spec fn next_line_start(text: Seq<char>, end: int) -> int {
    if text[end] == '\n' {
        end + 1
    } else {
        end
    }
}

/// Adding one more step of `step` to a saturated multiple of it gives the
/// saturated next multiple.
proof fn lemma_saturate_step(count: int, step: int)
    requires
        0 <= count,
        0 <= step,
    ensures
        saturate((count + 1) * step) == saturate(saturate(count * step) + step),
        0 <= saturate(count * step),
{
    assert((count + 1) * step == count * step + step) by (nonlinear_arith);
    assert(0 <= count * step) by (nonlinear_arith)
        requires
            0 <= count,
            0 <= step,
    ;
}

/// The metrics of one font: how far each character advances the pen and how
/// far apart the tops of consecutive lines are.
#[derive(Clone, PartialEq, Eq, Debug)]
pub struct Font {
    /// The advance of each character whose code point is an index of this table.
    pub advances: Vec<u16>,
    /// The advance of every other character.
    pub default_advance: u16,
    /// The distance from the top of one line to the top of the next.
    pub line_spacing: u16,
}

impl Font {
    /// How far `c` advances the pen.
    pub open spec fn advance(&self, c: char) -> int {
        if (c as int) < self.advances@.len() {
            self.advances@[c as int] as int
        } else {
            self.default_advance as int
        }
    }

    /// The summed advances of the characters of `text` from position `from`
    /// up to, not including, position `to`.
    pub open spec fn width_between(&self, text: Seq<char>, from: int, to: int) -> int
        decreases to - from,
    {
        if to <= from {
            0
        } else {
            self.width_between(text, from, to - 1) + self.advance(text[to - 1])
        }
    }

    /// Whether the character at `at` still belongs to the line that starts at
    /// `start`: it is no line feed, and it is the line's first character or
    /// the line with it is no wider than `max_width`.
    pub open spec fn stays_on_line(
        &self,
        text: Seq<char>,
        max_width: int,
        start: int,
        at: int,
    ) -> bool {
        &&& at < text.len()
        &&& text[at] != '\n'
        &&& (at == start || self.width_between(text, start, at + 1) <= max_width)
    }

    /// Where the line that starts at `start` ends, given that every
    /// character before `at` belongs to it.
    pub open spec fn line_end(&self, text: Seq<char>, max_width: int, start: int, at: int) -> int
        decreases text.len() - at,
    {
        if self.stays_on_line(text, max_width, start, at) {
            self.line_end(text, max_width, start, at + 1)
        } else {
            at
        }
    }

    /// The lines of `text` from position `start` on, each as the pair of its
    /// first position and the position after its last. A line takes as many
    /// characters as stay on it; the text after the last line feed is a line
    /// even when it is empty.
    pub open spec fn line_spans(&self, text: Seq<char>, max_width: int, start: int) -> Seq<
        (int, int),
    >
        decreases text.len() - start,
    {
        let end = self.line_end(text, max_width, start, start);
        if end < text.len() && next_line_start(text, end) > start {
            seq![(start, end)] + self.line_spans(text, max_width, next_line_start(text, end))
        } else {
            seq![(start, end)]
        }
    }

    /// The fragment for the line `span` of `text` that is line number `index`
    /// of its block.
    pub open spec fn fragment(&self, text: Seq<char>, span: (int, int), index: int)
        -> TextFragmentView {
        TextFragmentView {
            x_offsets: Seq::new(
                (span.1 - span.0) as nat,
                |j: int| self.width_between(text, span.0, span.0 + j) as i32,
            ),
            y_offset: saturate(index * self.line_spacing),
            text: text.subrange(span.0, span.1),
        }
    }

    /// The fragments for the given lines of `text`, numbered from zero.
    pub open spec fn fragments_of(&self, text: Seq<char>, spans: Seq<(int, int)>) -> Seq<
        TextFragmentView,
    > {
        Seq::new(spans.len(), |k: int| self.fragment(text, spans[k], k))
    }

    /// The width of the widest of the given lines of `text`.
    pub open spec fn widest(&self, text: Seq<char>, spans: Seq<(int, int)>) -> int
        decreases spans.len(),
    {
        if spans.len() == 0 {
            0
        } else {
            let last = self.width_between(text, spans.last().0, spans.last().1);
            let before = self.widest(text, spans.drop_last());
            if last > before {
                last
            } else {
                before
            }
        }
    }

    /// `text` broken into lines no wider than `max_width`, where a single
    /// character may stand alone on a line that is too narrow for it.
    pub open spec fn spec_layout(&self, text: Seq<char>, max_width: int) -> Seq<TextFragmentView> {
        self.fragments_of(text, self.line_spans(text, max_width, 0))
    }

    /// The extent of the block that `spec_layout` describes: as wide as its
    /// widest line and one line spacing high for each line.
    pub open spec fn spec_size(&self, text: Seq<char>, max_width: int) -> Vec2 {
        let spans = self.line_spans(text, max_width, 0);
        Vec2 {
            x: self.widest(text, spans) as i32,
            y: saturate(spans.len() * self.line_spacing),
        }
    }

    /// A line ends at or after the position it was followed to, and within
    /// the text. If what was followed fits the width, or is a single
    /// character, so does the whole line.
    pub proof fn lemma_line_end(&self, text: Seq<char>, max_width: int, start: int, at: int)
        requires
            0 <= start <= at <= text.len(),
            at - start >= 2 ==> self.width_between(text, start, at) <= max_width,
        ensures
            at <= self.line_end(text, max_width, start, at) <= text.len(),
            self.line_end(text, max_width, start, at) - start >= 2 ==> self.width_between(
                text,
                start,
                self.line_end(text, max_width, start, at),
            ) <= max_width,
        decreases text.len() - at,
    {
        if self.stays_on_line(text, max_width, start, at) {
            self.lemma_line_end(text, max_width, start, at + 1);
        }
    }

    /// The lines from `start` on lie within the text, in order, and each
    /// line of more than one character is no wider than `max_width`.
    pub proof fn lemma_line_spans(&self, text: Seq<char>, max_width: int, start: int)
        requires
            0 <= start <= text.len(),
        ensures
            forall|k: int|
                0 <= k < self.line_spans(text, max_width, start).len() ==> {
                    let span = #[trigger] self.line_spans(text, max_width, start)[k];
                    &&& start <= span.0 <= span.1 <= text.len()
                    &&& span.1 - span.0 >= 2 ==> self.width_between(text, span.0, span.1)
                        <= max_width
                },
        decreases text.len() - start,
    {
        let end = self.line_end(text, max_width, start, start);
        self.lemma_line_end(text, max_width, start, start);
        if end < text.len() && next_line_start(text, end) > start {
            let next = next_line_start(text, end);
            self.lemma_line_spans(text, max_width, next);
            let rest = self.line_spans(text, max_width, next);
            let all = self.line_spans(text, max_width, start);
            assert(all == seq![(start, end)] + rest);
            assert forall|k: int| 0 <= k < all.len() implies {
                let span = #[trigger] all[k];
                &&& start <= span.0 <= span.1 <= text.len()
                &&& span.1 - span.0 >= 2 ==> self.width_between(text, span.0, span.1) <= max_width
            } by {
                if k > 0 {
                    assert(all[k] == rest[k - 1]);
                }
            }
        }
    }

    /// The lines from `start` on leave nothing out and take all they can: the
    /// first starts at `start`, each next one starts where the one before it
    /// ended, or behind the line feed that ended it, the last one ends with
    /// the text, and no line could have taken the character behind it.
    pub proof fn lemma_lines_cover(&self, text: Seq<char>, max_width: int, start: int)
        requires
            0 <= start <= text.len(),
        ensures
            self.line_spans(text, max_width, start).len() >= 1,
            self.line_spans(text, max_width, start)[0].0 == start,
            self.line_spans(text, max_width, start).last().1 == text.len(),
            forall|k: int|
                0 <= k < self.line_spans(text, max_width, start).len() - 1 ==> {
                    &&& (#[trigger] self.line_spans(text, max_width, start)[k]).1 < text.len()
                    &&& self.line_spans(text, max_width, start)[k + 1].0 == next_line_start(
                        text,
                        self.line_spans(text, max_width, start)[k].1,
                    )
                },
            forall|k: int|
                0 <= k < self.line_spans(text, max_width, start).len() ==> {
                    let span = #[trigger] self.line_spans(text, max_width, start)[k];
                    !self.stays_on_line(text, max_width, span.0, span.1)
                },
        decreases text.len() - start,
    {
        let end = self.line_end(text, max_width, start, start);
        self.lemma_line_end(text, max_width, start, start);
        self.lemma_line_end_is_last(text, max_width, start, start);
        let all = self.line_spans(text, max_width, start);
        if end < text.len() && next_line_start(text, end) > start {
            let next = next_line_start(text, end);
            self.lemma_lines_cover(text, max_width, next);
            let rest = self.line_spans(text, max_width, next);
            assert(all == seq![(start, end)] + rest);
            assert(all[0] == (start, end));
            assert(all.last() == rest.last());
            assert forall|k: int| 0 <= k < all.len() - 1 implies {
                &&& (#[trigger] all[k]).1 < text.len()
                &&& all[k + 1].0 == next_line_start(text, all[k].1)
            } by {
                assert(all[k + 1] == rest[k]);
                if k > 0 {
                    assert(all[k] == rest[k - 1]);
                }
            }
            assert forall|k: int| 0 <= k < all.len() implies {
                let span = #[trigger] all[k];
                !self.stays_on_line(text, max_width, span.0, span.1)
            } by {
                if k > 0 {
                    assert(all[k] == rest[k - 1]);
                }
            }
        } else {
            assert(all == seq![(start, end)]);
            if end < text.len() {
                assert(self.stays_on_line(text, max_width, start, start));
            }
        }
    }

    /// The character at the end of a line does not stay on the line.
    proof fn lemma_line_end_is_last(&self, text: Seq<char>, max_width: int, start: int, at: int)
        requires
            0 <= start <= at <= text.len(),
        ensures
            !self.stays_on_line(
                text,
                max_width,
                start,
                self.line_end(text, max_width, start, at),
            ),
        decreases text.len() - at,
    {
        if self.stays_on_line(text, max_width, start, at) {
            self.lemma_line_end_is_last(text, max_width, start, at + 1);
        }
    }

    /// Whatever the text and the width, every fragment of the layout names a
    /// start for each of its characters, and holds more than one character
    /// only if they fit the width.
    pub proof fn lemma_layout_well_formed(&self, text: Seq<char>, max_width: int)
        ensures
            offsets_match(self.spec_layout(text, max_width)),
            forall|k: int|
                0 <= k < self.spec_layout(text, max_width).len() ==> {
                    let span = self.line_spans(text, max_width, 0)[k];
                    let fragment = #[trigger] self.spec_layout(text, max_width)[k];
                    &&& fragment.text.len() == span.1 - span.0
                    &&& fragment.text.len() >= 2 ==> self.width_between(text, span.0, span.1)
                        <= max_width
                },
    {
        self.lemma_line_spans(text, max_width, 0);
        let spans = self.line_spans(text, max_width, 0);
        assert forall|k: int| 0 <= k < spans.len() implies {
            let span = spans[k];
            let fragment = #[trigger] self.spec_layout(text, max_width)[k];
            &&& fragment.x_offsets.len() == fragment.text.len()
            &&& fragment.text.len() == span.1 - span.0
            &&& fragment.text.len() >= 2 ==> self.width_between(text, span.0, span.1) <= max_width
        } by {
            let span = spans[k];
            assert(0 <= span.0 <= span.1 <= text.len());
            assert(self.spec_layout(text, max_width)[k] == self.fragment(text, span, k));
        }
    }

    /// One more line behind the lines laid out so far: its fragment joins
    /// theirs, and the widest line is the wider of it and the widest so far.
    proof fn lemma_fragment_added(
        &self,
        text: Seq<char>,
        fragments: Seq<TextFragment>,
        fragment: TextFragment,
        spans: Seq<(int, int)>,
        span: (int, int),
    )
        requires
            fragments.len() == spans.len(),
            fragment_views(fragments) == self.fragments_of(text, spans),
            fragment@ == self.fragment(text, span, spans.len() as int),
            offsets_match(fragment_views(fragments)),
            fragment@.x_offsets.len() == fragment@.text.len(),
        ensures
            fragment_views(fragments.push(fragment)) == self.fragments_of(text, spans.push(span)),
            offsets_match(fragment_views(fragments.push(fragment))),
            self.widest(text, spans.push(span)) == if self.width_between(text, span.0, span.1)
                > self.widest(text, spans) {
                self.width_between(text, span.0, span.1)
            } else {
                self.widest(text, spans)
            },
    {
        assert forall|k: int| 0 <= k < fragments.len() implies fragments[k]@ == self.fragment(
            text,
            spans[k],
            k,
        ) by {
            assert(fragment_views(fragments)[k] == fragments[k]@);
            assert(self.fragments_of(text, spans)[k] == self.fragment(text, spans[k], k));
        }
        assert(fragment_views(fragments.push(fragment)) =~= self.fragments_of(
            text,
            spans.push(span),
        ));
        assert(spans.push(span).drop_last() =~= spans);
        assert forall|k: int| 0 <= k < fragments.len() + 1 implies (#[trigger] fragment_views(
            fragments.push(fragment),
        )[k]).x_offsets.len() == fragment_views(fragments.push(fragment))[k].text.len() by {
            if k < fragments.len() {
                assert(fragment_views(fragments.push(fragment))[k] == fragment_views(fragments)[k]);
            }
        }
    }

    /// How far `c` advances the pen.
    pub fn glyph_advance(&self, c: char) -> (a: u16)
        ensures
            a == self.advance(c),
    {
        let code: usize = c as usize;
        if code < self.advances.len() {
            self.advances[code]
        } else {
            self.default_advance
        }
    }

    /// Breaks `text` into lines no wider than `max_width` and reports the
    /// fragments, top to bottom, with the extent of the block they fill.
    pub fn layout_multiline(&self, text: &str, max_width: i32) -> (shaped: (Vec<TextFragment>, Vec2))
        ensures
            fragment_views(shaped.0@) == self.spec_layout(text@, max_width as int),
            shaped.1 == self.spec_size(text@, max_width as int),
            offsets_match(fragment_views(shaped.0@)),
    {
        let n = text.unicode_len();
        let spacing: i64 = self.line_spacing as i64;
        let limit: i64 = i32::MAX as i64;
        let mut fragments: Vec<TextFragment> = Vec::new();
        let mut offsets: Vec<i32> = Vec::new();
        let mut start: usize = 0;
        let mut i: usize = 0;
        let mut line_width: i64 = 0;
        let mut widest: i64 = 0;
        let mut y: i64 = 0;
        let ghost chars = text@;
        let ghost mw = max_width as int;
        let ghost mut done: Seq<(int, int)> = Seq::empty();
        proof {
            assert(done + self.line_spans(chars, mw, 0) =~= self.line_spans(chars, mw, 0));
            assert(fragment_views(fragments@) =~= self.fragments_of(chars, done));
            assert(0 * spacing == 0);
        }
        for c in it: text.chars()
            invariant
                chars == text@,
                it.seq() == chars,
                i == it.index(),
                mw == max_width as int,
                n == chars.len(),
                spacing == self.line_spacing,
                limit == i32::MAX,
                start <= i <= n,
                self.line_end(chars, mw, start as int, i as int) == self.line_end(
                    chars,
                    mw,
                    start as int,
                    start as int,
                ),
                done + self.line_spans(chars, mw, start as int) == self.line_spans(chars, mw, 0),
                fragments@.len() == done.len(),
                fragment_views(fragments@) == self.fragments_of(chars, done),
                offsets_match(fragment_views(fragments@)),
                offsets@.len() == i - start,
                forall|j: int|
                    0 <= j < i - start ==> offsets@[j] == self.width_between(
                        chars,
                        start as int,
                        start + j,
                    ),
                line_width == self.width_between(chars, start as int, i as int),
                0 <= line_width,
                i - start <= 1 ==> line_width <= 0xffff,
                i - start >= 2 ==> line_width <= mw,
                widest == self.widest(chars, done),
                0 <= widest <= limit,
                y == saturate(done.len() * spacing),
                0 <= y,
        {
            let advance: i64 = self.glyph_advance(c) as i64;
            if c != '\n' && (i == start || line_width + advance <= max_width as i64) {
                assert(self.stays_on_line(chars, mw, start as int, i as int));
                offsets.push(line_width as i32);
                line_width = line_width + advance;
                i = i + 1;
            } else {
                assert(!self.stays_on_line(chars, mw, start as int, i as int));
                assert(self.line_end(chars, mw, start as int, start as int) == i);
                let line = String::from_str(text.substring_char(start, i));
                let fragment = TextFragment { x_offsets: offsets, y_offset: y as i32, text: line };
                proof {
                    let span = (start as int, i as int);
                    let next = next_line_start(chars, i as int);
                    assert(next > start);
                    assert(self.line_spans(chars, mw, start as int) == seq![span]
                        + self.line_spans(chars, mw, next));
                    assert(done.push(span) + self.line_spans(chars, mw, next) =~= done
                        + self.line_spans(chars, mw, start as int));
                    assert(fragment@.x_offsets =~= self.fragment(
                        chars,
                        span,
                        done.len() as int,
                    ).x_offsets);
                    assert(fragment@ == self.fragment(chars, span, done.len() as int));
                    self.lemma_fragment_added(chars, fragments@, fragment, done, span);
                    lemma_saturate_step(done.len() as int, spacing as int);
                    done = done.push(span);
                }
                fragments.push(fragment);
                if line_width > widest {
                    widest = line_width;
                }
                y = if y + spacing > limit {
                    limit
                } else {
                    y + spacing
                };
                offsets = Vec::new();
                if c == '\n' {
                    i = i + 1;
                    start = i;
                    line_width = 0;
                } else {
                    start = i;
                    assert(self.stays_on_line(chars, mw, start as int, i as int));
                    assert(self.width_between(chars, start as int, start as int) == 0);
                    offsets.push(0);
                    line_width = advance;
                    i = i + 1;
                }
            }
        }
        let line = String::from_str(text.substring_char(start, i));
        let fragment = TextFragment { x_offsets: offsets, y_offset: y as i32, text: line };
        proof {
            let span = (start as int, i as int);
            assert(!self.stays_on_line(chars, mw, start as int, i as int));
            assert(self.line_spans(chars, mw, start as int) == seq![span]);
            assert(done.push(span) =~= done + self.line_spans(chars, mw, start as int));
            assert(fragment@.x_offsets =~= self.fragment(chars, span, done.len() as int).x_offsets);
            assert(fragment@ == self.fragment(chars, span, done.len() as int));
            self.lemma_fragment_added(chars, fragments@, fragment, done, span);
            lemma_saturate_step(done.len() as int, spacing as int);
            done = done.push(span);
        }
        fragments.push(fragment);
        if line_width > widest {
            widest = line_width;
        }
        y = if y + spacing > limit {
            limit
        } else {
            y + spacing
        };
        (fragments, Vec2 { x: widest as i32, y: y as i32 })
    }

    /// The distance from the top of one line to the top of the next.
    pub fn line_spacing(&self) -> (h: i32)
        ensures
            h == self.line_spacing,
    {
        self.line_spacing as i32
    }
}

/// The fonts of a frame, one for each text style.
#[derive(Clone, PartialEq, Eq, Debug)]
pub struct Fonts {
    pub body: Font,
    pub button: Font,
    pub heading: Font,
}

impl Fonts {
    /// The font that text of the given style is set in.
    pub open spec fn spec_font(&self, style: TextStyle) -> Font {
        match style {
            TextStyle::Body => self.body,
            TextStyle::Button => self.button,
            TextStyle::Heading => self.heading,
        }
    }

    /// The font that text of the given style is set in.
    pub fn font(&self, style: TextStyle) -> (font: &Font)
        ensures
            *font == self.spec_font(style),
    {
        match style {
            TextStyle::Body => &self.body,
            TextStyle::Button => &self.button,
            TextStyle::Heading => &self.heading,
        }
    }
}

} // verus!
