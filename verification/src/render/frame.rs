//! What is painted of a window: for each row of the viewport the fragments to
//! write and the column at which each begins.

use crate::render::line::{
    clip, law_clip_text, law_text_keeps_parts, offset_of, text_of, Part, PartView,
};
use crate::render::window::{Window, WindowView};
use vstd::prelude::*;

verus! {

/// A fragment and the column of the terminal at which it begins.
#[derive(Debug, PartialEq, Eq)]
pub struct Span {
    pub x: i32,
    pub part: Part,
}

/// A row of the viewport: where on the terminal it begins, and what is
/// written on it once it is cleared. A row with nothing to write is left
/// blank.
#[derive(Debug, PartialEq, Eq)]
pub struct Row {
    pub y: i32,
    pub x: i32,
    pub spans: Vec<Span>,
}

/// What is painted of a window.
#[derive(Debug, PartialEq, Eq)]
pub struct Frame {
    pub rows: Vec<Row>,
    pub cursor_visible: bool,
}

/// What a span is.
pub struct SpanView {
    pub x: int,
    pub part: PartView,
}

/// What a row is.
pub struct RowView {
    pub y: int,
    pub x: int,
    pub spans: Seq<SpanView>,
}

/// What a frame is.
pub struct FrameView {
    pub rows: Seq<RowView>,
    pub cursor_visible: bool,
}

impl View for Span {
    type V = SpanView;

    open spec fn view(&self) -> SpanView {
        SpanView { x: self.x as int, part: self.part@ }
    }
}

impl View for Row {
    type V = RowView;

    open spec fn view(&self) -> RowView {
        RowView {
            y: self.y as int,
            x: self.x as int,
            spans: self.spans@.map_values(|span: Span| span@),
        }
    }
}

impl View for Frame {
    type V = FrameView;

    open spec fn view(&self) -> FrameView {
        FrameView {
            rows: self.rows@.map_values(|row: Row| row@),
            cursor_visible: self.cursor_visible,
        }
    }
}

/// The fragments `parts` written one after the other from column `x` on: each
/// begins where the one before it ends.
pub open spec fn spans_of(parts: Seq<PartView>, x: int) -> Seq<SpanView> {
    Seq::new(parts.len(), |i: int| SpanView { x: x + offset_of(parts, i), part: parts[i] })
}

/// Row `r` of the viewport of `window`: the row of content that falls on it,
/// cut down to the viewport's width; nothing where the content has ended.
pub open spec fn row_of(window: WindowView, r: int) -> RowView {
    RowView {
        y: window.origin.y + r,
        x: window.origin.x as int,
        spans: if window.top + r < window.lines.len() {
            spans_of(clip(window.lines[window.top + r], window.width()), window.origin.x as int)
        } else {
            Seq::empty()
        },
    }
}

/// What is painted of `window`: the rows of its viewport from the first row
/// shown on, and nothing of the rows before it or after the viewport's last.
pub open spec fn frame_of(window: WindowView) -> FrameView {
    FrameView {
        rows: Seq::new(window.height(), |r: int| row_of(window, r)),
        cursor_visible: window.cursor_visible,
    }
}

/// Nothing is written outside the viewport: every fragment of a frame begins
/// within the viewport's columns and on one of its rows, and the text written
/// on a row is no longer than the viewport is wide.
pub proof fn law_frame_within_viewport(window: WindowView, r: int, i: int)
    requires
        window.wf(),
        0 <= r < window.height(),
        0 <= i < frame_of(window).rows[r].spans.len(),
    ensures
        frame_of(window).rows.len() == window.height(),
        frame_of(window).rows[r].y == window.origin.y + r,
        frame_of(window).rows[r].x == window.origin.x,
        window.origin.x <= frame_of(window).rows[r].spans[i].x <= window.origin.x + window.width(),
        frame_of(window).rows[r].spans[i].x + frame_of(window).rows[r].spans[i].part.text.len()
            <= window.origin.x + window.width(),
{
    let shown = clip(window.lines[window.top + r], window.width());
    law_clip_text(window.lines[window.top + r], window.width());
    law_text_keeps_parts(shown, i);
}

/// The spans that write `line`, cut down to `width` columns, from column `x` on.
fn spans(window: &Window, row: usize, width: usize, x: i32) -> (spans: Vec<Span>)
    requires
        row < window@.lines.len(),
        x >= 0,
        x + width <= i32::MAX,
    ensures
        spans@.map_values(|span: Span| span@) == spans_of(
            clip(window@.lines[row as int], width as nat),
            x as int,
        ),
{
    let line = window.line(row).clipped(width);
    proof {
        law_clip_text(window@.lines[row as int], width as nat);
    }
    let mut spans: Vec<Span> = Vec::new();
    let mut offset: usize = 0;
    let mut i: usize = 0;
    while i < line.len()
        invariant
            i <= line@.len(),
            spans@.len() == i,
            offset == offset_of(line@, i as int),
            text_of(line@).len() <= width,
            x >= 0,
            x + width <= i32::MAX,
            forall|j: int|
                0 <= j < i ==> (#[trigger] spans@[j])@ == (SpanView {
                    x: x + offset_of(line@, j),
                    part: line@[j],
                }),
        decreases line@.len() - i,
    {
        proof {
            law_text_keeps_parts(line@, i as int);
        }
        let part = line.part(i);
        spans.push(Span { x: x + offset as i32, part: part.clone() });
        offset = offset + part.width();
        i += 1;
    }
    assert(spans@.map_values(|span: Span| span@) =~= spans_of(line@, x as int));
    spans
}

/// What is painted of `window`.
pub fn frame(window: &Window) -> (frame: Frame)
    ensures
        frame@ == frame_of(window@),
{
    let height = window.height() as usize;
    let width = window.width() as usize;
    let origin = window.position();
    let top = window.top();
    let len = window.len();
    let mut rows: Vec<Row> = Vec::new();
    let mut r: usize = 0;
    while r < height
        invariant
            r <= height,
            window@.wf(),
            height == window@.height(),
            width == window@.width(),
            origin == window@.origin,
            top == window@.top,
            len == window@.lines.len(),
            rows@.len() == r,
            forall|j: int| 0 <= j < r ==> (#[trigger] rows@[j])@ == row_of(window@, j),
        decreases height - r,
    {
        let written = if r < len - top {
            spans(window, top + r, width, origin.x)
        } else {
            Vec::new()
        };
        let row = Row { y: origin.y + r as i32, x: origin.x, spans: written };
        assert(row@.spans =~= row_of(window@, r as int).spans);
        rows.push(row);
        r += 1;
    }
    let frame = Frame { rows, cursor_visible: window.is_cursor_visible() };
    assert(frame@.rows =~= frame_of(window@).rows);
    frame
}

} // verus!
