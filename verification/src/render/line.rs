//! One row of text as an ordered sequence of coloured, attributed fragments.

use crate::text::{head, take_chars};
use vstd::prelude::*;

verus! {

/// An attribute of a fragment.
#[derive(Clone, Copy, PartialEq, Eq, Debug, Structural)]
pub enum Style {
    Bold,
    Underlined,
}

/// A colour: one of the terminal's palette, by its index there, or one given
/// by its share of red, green and blue.
#[derive(Clone, Copy, PartialEq, Eq, Debug, Structural)]
pub enum Color {
    Indexed(i16),
    Rgb(u8, u8, u8),
}

/// A fragment of text with its colours and attributes. A colour that is absent
/// is the terminal's own.
#[derive(Debug, PartialEq, Eq)]
pub struct Part {
    text: String,
    foreground: Option<Color>,
    background: Option<Color>,
    bold: bool,
    underlined: bool,
}

/// What a fragment is: its characters, colours and attributes.
pub struct PartView {
    pub text: Seq<char>,
    pub foreground: Option<Color>,
    pub background: Option<Color>,
    pub bold: bool,
    pub underlined: bool,
}

/// A row of text: fragments in the order in which they are painted.
#[derive(Debug, PartialEq, Eq)]
pub struct Line {
    parts: Vec<Part>,
}

/// Whether `style` is among `styles`.
pub open spec fn has_style(styles: Option<Vec<Style>>, style: Style) -> bool {
    styles matches Some(list) && list@.contains(style)
}

/// The fragment that shows `text` in the terminal's colours with `styles`.
pub open spec fn styled(text: Seq<char>, styles: Option<Vec<Style>>) -> PartView {
    PartView {
        text,
        foreground: None,
        background: None,
        bold: has_style(styles, Style::Bold),
        underlined: has_style(styles, Style::Underlined),
    }
}

/// The fragment that shows `text` with no colour and no attribute.
pub open spec fn unstyled(text: Seq<char>) -> PartView {
    PartView { text, foreground: None, background: None, bold: false, underlined: false }
}

/// The fragment that shows `text` in the given colours.
pub open spec fn coloured(text: Seq<char>, foreground: Color, background: Color) -> PartView {
    PartView {
        text,
        foreground: Some(foreground),
        background: Some(background),
        bold: false,
        underlined: false,
    }
}

/// The text of a row: the texts of its fragments, one after the other.
pub open spec fn text_of(parts: Seq<PartView>) -> Seq<char>
    decreases parts.len(),
{
    if parts.len() == 0 {
        Seq::empty()
    } else {
        text_of(parts.drop_last()) + parts.last().text
    }
}

/// The column, counted from the start of the row, at which fragment `i` begins.
pub open spec fn offset_of(parts: Seq<PartView>, i: int) -> nat {
    text_of(parts.take(i)).len()
}

/// How many of `width` columns are left when fragment `i` begins.
pub open spec fn room_at(parts: Seq<PartView>, i: int, width: nat) -> nat {
    if offset_of(parts, i) < width {
        (width - offset_of(parts, i)) as nat
    } else {
        0
    }
}

/// The fragment `part` cut down to its first `room` characters.
pub open spec fn clip_part(part: PartView, room: nat) -> PartView {
    PartView { text: head(part.text, room), ..part }
}

/// The row cut down to `width` columns: each fragment keeps what of it begins
/// before column `width`.
pub open spec fn clip(parts: Seq<PartView>, width: nat) -> Seq<PartView> {
    Seq::new(parts.len(), |i: int| clip_part(parts[i], room_at(parts, i, width)))
}

/// The text of two rows joined is the two texts joined.
pub proof fn lemma_text_of_concat(front: Seq<PartView>, back: Seq<PartView>)
    ensures
        text_of(front + back) == text_of(front) + text_of(back),
    decreases back.len(),
{
    if back.len() == 0 {
        assert(front + back =~= front);
        assert(text_of(front) + text_of(back) =~= text_of(front));
    } else {
        lemma_text_of_concat(front, back.drop_last());
        assert((front + back).drop_last() =~= front + back.drop_last());
        assert((front + back).last() == back.last());
        assert(text_of(front + back) =~= text_of(front) + text_of(back));
    }
}

/// A row keeps every fragment whole and in its place: the text of fragment `i`
/// stands in the row's text at the fragment's offset, and the fragments after it
/// begin where it ends.
pub proof fn law_text_keeps_parts(parts: Seq<PartView>, i: int)
    requires
        0 <= i < parts.len(),
    ensures
        offset_of(parts, i) + parts[i].text.len() == offset_of(parts, i + 1),
        offset_of(parts, i + 1) <= text_of(parts).len(),
        text_of(parts).subrange(offset_of(parts, i) as int, offset_of(parts, i + 1) as int)
            == parts[i].text,
        offset_of(parts, 0) == 0,
        offset_of(parts, parts.len() as int) == text_of(parts).len(),
{
    let front = parts.take(i);
    let upto = parts.take(i + 1);
    let back = parts.skip(i + 1);
    assert(upto.drop_last() =~= front);
    assert(upto.last() == parts[i]);
    assert(parts =~= upto + back);
    lemma_text_of_concat(upto, back);
    assert(text_of(parts).subrange(offset_of(parts, i) as int, offset_of(parts, i + 1) as int)
        =~= parts[i].text);
    assert(parts.take(0) =~= Seq::<PartView>::empty());
    assert(parts.take(parts.len() as int) =~= parts);
}

/// Cutting a row down to `width` columns cuts its text down to `width` characters.
pub proof fn law_clip_text(parts: Seq<PartView>, width: nat)
    ensures
        text_of(clip(parts, width)) == head(text_of(parts), width),
    decreases parts.len(),
{
    if parts.len() == 0 {
        assert(clip(parts, width) =~= Seq::<PartView>::empty());
    } else {
        let front = parts.drop_last();
        let n = front.len() as int;
        law_clip_text(front, width);
        assert forall|i: int| 0 <= i < n implies front.take(i) == parts.take(i) by {
            assert(front.take(i) =~= parts.take(i));
        }
        assert(clip(parts, width).drop_last() =~= clip(front, width));
        assert(parts.take(n) =~= front);
        assert(clip(parts, width).last() == clip_part(parts.last(), room_at(parts, n, width)));
        assert(text_of(clip(parts, width)) =~= head(text_of(parts), width));
    }
}

impl View for Part {
    type V = PartView;

    closed spec fn view(&self) -> PartView {
        PartView {
            text: self.text@,
            foreground: self.foreground,
            background: self.background,
            bold: self.bold,
            underlined: self.underlined,
        }
    }
}

impl Clone for Part {
    fn clone(&self) -> (copy: Self)
        ensures
            copy@ == self@,
    {
        Part {
            text: self.text.clone(),
            foreground: self.foreground,
            background: self.background,
            bold: self.bold,
            underlined: self.underlined,
        }
    }
}

/// Whether `style` is among `styles`.
fn holds_style(styles: &Option<Vec<Style>>, style: Style) -> (holds: bool)
    ensures
        holds == has_style(*styles, style),
{
    match styles {
        None => false,
        Some(list) => {
            let mut i: usize = 0;
            while i < list.len()
                invariant
                    i <= list.len(),
                    *styles == Some(*list),
                    forall|j: int| 0 <= j < i ==> list@[j] != style,
                decreases list.len() - i,
            {
                if list[i] == style {
                    assert(list@[i as int] == style);
                    return true;
                }
                i += 1;
            }
            false
        },
    }
}

impl Part {
    /// A fragment in the terminal's colours with the given attributes.
    pub fn new(text: &str, styles: Option<Vec<Style>>) -> (part: Part)
        ensures
            part@ == styled(text@, styles),
    {
        let bold = holds_style(&styles, Style::Bold);
        let underlined = holds_style(&styles, Style::Underlined);
        Part { text: text.to_owned(), foreground: None, background: None, bold, underlined }
    }

    /// A fragment with no colour and no attribute.
    pub fn plain(text: &str) -> (part: Part)
        ensures
            part@ == unstyled(text@),
    {
        Part {
            text: text.to_owned(),
            foreground: None,
            background: None,
            bold: false,
            underlined: false,
        }
    }

    /// A fragment in the given colours.
    pub fn painted(text: &str, foreground: Color, background: Color) -> (part: Part)
        ensures
            part@ == coloured(text@, foreground, background),
    {
        Part {
            text: text.to_owned(),
            foreground: Some(foreground),
            background: Some(background),
            bold: false,
            underlined: false,
        }
    }

    /// The characters of the fragment.
    pub fn text(&self) -> (text: &str)
        ensures
            text@ == self@.text,
    {
        self.text.as_str()
    }

    /// The colour of the characters, if the fragment sets one.
    pub fn foreground(&self) -> (color: Option<Color>)
        ensures
            color == self@.foreground,
    {
        self.foreground
    }

    /// The colour behind the characters, if the fragment sets one.
    pub fn background(&self) -> (color: Option<Color>)
        ensures
            color == self@.background,
    {
        self.background
    }

    /// Whether the fragment is painted bold.
    pub fn is_bold(&self) -> (bold: bool)
        ensures
            bold == self@.bold,
    {
        self.bold
    }

    /// Whether the fragment is underlined.
    pub fn is_underlined(&self) -> (underlined: bool)
        ensures
            underlined == self@.underlined,
    {
        self.underlined
    }

    /// The number of columns that the fragment takes.
    pub fn width(&self) -> (width: usize)
        ensures
            width == self@.text.len(),
    {
        self.text.as_str().unicode_len()
    }

    /// The fragment cut down to its first `room` characters.
    pub fn clipped(&self, room: usize) -> (part: Part)
        ensures
            part@ == clip_part(self@, room as nat),
    {
        Part {
            text: take_chars(self.text.as_str(), room),
            foreground: self.foreground,
            background: self.background,
            bold: self.bold,
            underlined: self.underlined,
        }
    }
}

impl View for Line {
    type V = Seq<PartView>;

    closed spec fn view(&self) -> Seq<PartView> {
        self.parts@.map_values(|part: Part| part@)
    }
}

impl Clone for Line {
    fn clone(&self) -> (copy: Self)
        ensures
            copy@ == self@,
    {
        let mut parts: Vec<Part> = Vec::new();
        let mut i: usize = 0;
        while i < self.parts.len()
            invariant
                i <= self.parts.len(),
                parts@.len() == i,
                forall|j: int| 0 <= j < i ==> parts@[j]@ == self.parts@[j]@,
            decreases self.parts.len() - i,
        {
            parts.push(self.parts[i].clone());
            i += 1;
        }
        let copy = Line { parts };
        assert(copy@ =~= self@);
        copy
    }
}

impl Line {
    /// The row made of `parts`, in their order.
    pub fn new(parts: Vec<Part>) -> (line: Line)
        ensures
            line@ == parts@.map_values(|part: Part| part@),
    {
        Line { parts }
    }

    /// The row with no fragment.
    pub fn empty() -> (line: Line)
        ensures
            line@ == Seq::<PartView>::empty(),
    {
        let line = Line { parts: Vec::new() };
        assert(line@ =~= Seq::<PartView>::empty());
        line
    }

    /// The row that shows `text` with no colour and no attribute.
    pub fn plain(text: &str) -> (line: Line)
        ensures
            line@ == seq![unstyled(text@)],
    {
        let mut parts: Vec<Part> = Vec::new();
        parts.push(Part::plain(text));
        let line = Line { parts };
        assert(line@ =~= seq![unstyled(text@)]);
        line
    }

    /// The row that shows `text` in one fragment with the given attributes.
    pub fn from_str(text: &str, styles: Option<Vec<Style>>) -> (line: Line)
        ensures
            line@ == seq![styled(text@, styles)],
    {
        let mut parts: Vec<Part> = Vec::new();
        parts.push(Part::new(text, styles));
        let line = Line { parts };
        assert(line@ =~= seq![styled(text@, styles)]);
        line
    }

    /// The row that shows `text` with no colour and no attribute.
    pub fn from_string(text: String) -> (line: Line)
        ensures
            line@ == seq![unstyled(text@)],
    {
        Line::plain(text.as_str())
    }

    /// The number of fragments.
    pub fn len(&self) -> (len: usize)
        ensures
            len == self@.len(),
    {
        self.parts.len()
    }

    /// Fragment `i`.
    pub fn part(&self, i: usize) -> (part: &Part)
        requires
            i < self@.len(),
        ensures
            part@ == self@[i as int],
    {
        &self.parts[i]
    }

    /// The text of the row: the texts of its fragments, one after the other.
    pub fn text(&self) -> (text: String)
        ensures
            text@ == text_of(self@),
    {
        let mut text = String::new();
        let mut i: usize = 0;
        while i < self.parts.len()
            invariant
                i <= self.parts.len(),
                text@ == text_of(self@.take(i as int)),
            decreases self.parts.len() - i,
        {
            proof {
                let upto = self@.take(i + 1);
                assert(upto.drop_last() =~= self@.take(i as int));
                assert(upto.last() == self.parts@[i as int]@);
            }
            text.append(self.parts[i].text());
            i += 1;
        }
        assert(self@.take(i as int) =~= self@);
        text
    }

    /// The row cut down to `width` columns.
    pub fn clipped(&self, width: usize) -> (line: Line)
        ensures
            line@ == clip(self@, width as nat),
    {
        let mut parts: Vec<Part> = Vec::new();
        let mut room: usize = width;
        let mut i: usize = 0;
        while i < self.parts.len()
            invariant
                i <= self.parts.len(),
                parts@.len() == i,
                room == room_at(self@, i as int, width as nat),
                forall|j: int|
                    0 <= j < i ==> parts@[j]@ == clip_part(
                        self@[j],
                        room_at(self@, j, width as nat),
                    ),
            decreases self.parts.len() - i,
        {
            proof {
                law_text_keeps_parts(self@, i as int);
            }
            let part = &self.parts[i];
            let taken = part.width();
            parts.push(part.clipped(room));
            room = if taken < room {
                room - taken
            } else {
                0
            };
            i += 1;
        }
        let line = Line { parts };
        assert(line@ =~= clip(self@, width as nat));
        line
    }
}

} // verus!
