//! The viewport of one screen: its rows, the row the cursor is on, the first
//! row shown, and where on the terminal it is painted.

use crate::render::line::{text_of, Line, PartView};
use crate::render::Point;
use crate::text::{contains, occurs};
use vstd::prelude::*;

verus! {

/// A number of rows and of columns. Asked of a window, zero rows or columns
/// stand for "as far as the terminal reaches".
#[derive(Clone, Copy, PartialEq, Eq, Debug, Structural)]
pub struct ScreenSize {
    pub lines: i32,
    pub cols: i32,
}

/// Why a window cannot be had.
#[derive(Clone, Copy, PartialEq, Eq, Debug, Structural)]
pub enum RenderError {
    /// A size or a coordinate is negative.
    Negative,
    /// The window would have no row or no column.
    Empty,
    /// The window would reach past the last cell that can be addressed.
    OutOfRange,
}

/// The rows or columns that a window gets: what was asked for, or, where zero
/// was asked for, what the terminal has left from `start` on.
pub open spec fn extent(asked: int, start: int, available: int) -> int {
    if asked == 0 {
        available - start
    } else {
        asked
    }
}

/// The size that a window of the size `asked` gets at `position` on a terminal
/// of the size `terminal`, or why it gets none.
pub open spec fn placed(asked: ScreenSize, position: Point, terminal: ScreenSize) -> Result<
    ScreenSize,
    RenderError,
> {
    let lines = extent(asked.lines as int, position.y as int, terminal.lines as int);
    let cols = extent(asked.cols as int, position.x as int, terminal.cols as int);
    if asked.lines < 0 || asked.cols < 0 || position.x < 0 || position.y < 0 {
        Err(RenderError::Negative)
    } else if lines <= 0 || cols <= 0 {
        Err(RenderError::Empty)
    } else if position.y + lines > i32::MAX || position.x + cols > i32::MAX {
        Err(RenderError::OutOfRange)
    } else {
        Ok(ScreenSize { lines: lines as i32, cols: cols as i32 })
    }
}

/// The largest first row that still fills a viewport of `height` rows from
/// `len` rows of content.
pub open spec fn max_top(len: nat, height: nat) -> nat {
    if len > height {
        (len - height) as nat
    } else {
        0
    }
}

/// The rows that `lines` show.
pub open spec fn rows_of(lines: Seq<Line>) -> Seq<Seq<PartView>> {
    lines.map_values(|line: Line| line@)
}

/// One step of scrolling: up or down by a number of rows.
pub enum Scroll {
    Up(nat),
    Down(nat),
}

/// What a window is.
pub struct WindowView {
    /// The rows, in the order in which they are shown from top to bottom.
    pub lines: Seq<Seq<PartView>>,
    /// The row that the cursor is on.
    pub cursor: nat,
    /// The first row shown.
    pub top: nat,
    /// The rows and columns of the viewport.
    pub size: ScreenSize,
    /// The cell of the terminal at which the viewport begins.
    pub origin: Point,
    /// Whether the terminal's cursor is to be seen while this window is shown.
    pub cursor_visible: bool,
}

impl WindowView {
    /// The number of rows of the viewport.
    pub open spec fn height(self) -> nat {
        self.size.lines as nat
    }

    /// The number of columns of the viewport.
    pub open spec fn width(self) -> nat {
        self.size.cols as nat
    }

    /// The largest first row that this window can show.
    pub open spec fn max_top(self) -> nat {
        max_top(self.lines.len(), self.height())
    }

    /// What holds of every window: the viewport has a row and a column and lies
    /// on cells that can be addressed, the cursor is on a row, or on row 0 of a
    /// window without rows, and the first row shown is no later than `max_top`.
    pub open spec fn wf(self) -> bool {
        &&& self.size.lines >= 1
        &&& self.size.cols >= 1
        &&& self.origin.x >= 0
        &&& self.origin.y >= 0
        &&& self.origin.y + self.size.lines <= i32::MAX
        &&& self.origin.x + self.size.cols <= i32::MAX
        &&& (self.cursor < self.lines.len() || (self.lines.len() == 0 && self.cursor == 0))
        &&& self.top <= self.max_top()
    }

    /// The text of the row that the cursor is on; empty in a window without rows.
    pub open spec fn cursor_text(self) -> Seq<char> {
        if self.lines.len() == 0 {
            Seq::empty()
        } else {
            text_of(self.lines[self.cursor as int])
        }
    }

    /// The window after its rows were replaced by `lines`: cursor and first row
    /// stay where they were, or move back to the last place that `lines` allow.
    pub open spec fn with_lines(self, lines: Seq<Seq<PartView>>) -> WindowView {
        WindowView {
            lines,
            cursor: if lines.len() == 0 {
                0
            } else if self.cursor < lines.len() {
                self.cursor
            } else {
                (lines.len() - 1) as nat
            },
            top: if self.top <= max_top(lines.len(), self.height()) {
                self.top
            } else {
                max_top(lines.len(), self.height())
            },
            ..self
        }
    }

    /// The window after scrolling up by `n` rows.
    pub open spec fn scrolled_up(self, n: nat) -> WindowView {
        WindowView {
            top: if n <= self.top {
                (self.top - n) as nat
            } else {
                0
            },
            ..self
        }
    }

    /// The window after scrolling down by `n` rows.
    pub open spec fn scrolled_down(self, n: nat) -> WindowView {
        WindowView {
            top: if self.top + n <= self.max_top() {
                self.top + n
            } else {
                self.max_top()
            },
            ..self
        }
    }

    /// The window after one step of scrolling.
    pub open spec fn scrolled(self, step: Scroll) -> WindowView {
        match step {
            Scroll::Up(n) => self.scrolled_up(n),
            Scroll::Down(n) => self.scrolled_down(n),
        }
    }

    /// The window after the steps of scrolling `steps`, first to last.
    pub open spec fn scrolled_all(self, steps: Seq<Scroll>) -> WindowView
        decreases steps.len(),
    {
        if steps.len() == 0 {
            self
        } else {
            self.scrolled_all(steps.drop_last()).scrolled(steps.last())
        }
    }

    /// Row `i` exists and its text holds `term`.
    pub open spec fn hit(self, term: Seq<char>, i: int) -> bool {
        0 <= i < self.lines.len() && occurs(text_of(self.lines[i]), term)
    }

    /// Some row holds `term`.
    pub open spec fn has_hit(self, term: Seq<char>) -> bool {
        exists|i: int| self.hit(term, i)
    }

    /// How many rows down from the cursor row `i` is, going on from the last row
    /// to the first: 1 for the row below the cursor, the number of rows for the
    /// cursor's own row.
    pub open spec fn ahead(self, i: int) -> int {
        if i > self.cursor {
            i - self.cursor
        } else {
            i - self.cursor + self.lines.len()
        }
    }

    /// How many rows up from the cursor row `i` is, going on from the first row
    /// to the last: 1 for the row above the cursor, the number of rows for the
    /// cursor's own row.
    pub open spec fn behind(self, i: int) -> int {
        if i < self.cursor {
            self.cursor - i
        } else {
            self.cursor - i + self.lines.len()
        }
    }

    /// Row `i` holds `term`, and no row that holds it comes sooner going down
    /// from the cursor.
    pub open spec fn is_next_hit(self, term: Seq<char>, i: int) -> bool {
        &&& self.hit(term, i)
        &&& forall|j: int| self.hit(term, j) ==> self.ahead(i) <= self.ahead(j)
    }

    /// Row `i` holds `term`, and no row that holds it comes sooner going up from
    /// the cursor.
    pub open spec fn is_prev_hit(self, term: Seq<char>, i: int) -> bool {
        &&& self.hit(term, i)
        &&& forall|j: int| self.hit(term, j) ==> self.behind(i) <= self.behind(j)
    }

    /// The first row to show so that row `row` is seen, moving as little as can be.
    pub open spec fn top_showing(self, row: nat) -> nat {
        if row < self.top {
            row
        } else if row >= self.top + self.height() {
            (row + 1 - self.height()) as nat
        } else {
            self.top
        }
    }

    /// The window with the cursor on row `row`, scrolled so that the row is seen.
    pub open spec fn moved_to(self, row: nat) -> WindowView {
        WindowView { cursor: row, top: self.top_showing(row), ..self }
    }

    /// The window after a search for the next row that holds `term`. An empty
    /// term, or one that no row holds, leaves the window as it is.
    pub open spec fn after_next(self, term: Seq<char>) -> WindowView {
        if term.len() == 0 || !self.has_hit(term) {
            self
        } else {
            self.moved_to((choose|i: int| self.is_next_hit(term, i)) as nat)
        }
    }

    /// The window after a search for the previous row that holds `term`. An empty
    /// term, or one that no row holds, leaves the window as it is.
    pub open spec fn after_prev(self, term: Seq<char>) -> WindowView {
        if term.len() == 0 || !self.has_hit(term) {
            self
        } else {
            self.moved_to((choose|i: int| self.is_prev_hit(term, i)) as nat)
        }
    }

    /// The window after `n` searches for the next row that holds `term`.
    pub open spec fn after_nexts(self, term: Seq<char>, n: nat) -> WindowView
        decreases n,
    {
        if n == 0 {
            self
        } else {
            self.after_nexts(term, (n - 1) as nat).after_next(term)
        }
    }

    /// At most one row is the next that holds `term`.
    pub proof fn lemma_next_hit_unique(self, term: Seq<char>, a: int, b: int)
        requires
            self.wf(),
            self.is_next_hit(term, a),
            self.is_next_hit(term, b),
        ensures
            a == b,
    {
    }

    /// At most one row is the previous that holds `term`.
    pub proof fn lemma_prev_hit_unique(self, term: Seq<char>, a: int, b: int)
        requires
            self.wf(),
            self.is_prev_hit(term, a),
            self.is_prev_hit(term, b),
        ensures
            a == b,
    {
    }

    /// Moving the cursor to a row keeps the window well formed and shows the row.
    pub proof fn lemma_moved_to(self, row: nat)
        requires
            self.wf(),
            row < self.lines.len(),
        ensures
            self.moved_to(row).wf(),
            self.moved_to(row).top <= row < self.moved_to(row).top + self.height(),
    {
    }

    /// Where some row holds `term`, a search for the next such row ends on the one
    /// that comes soonest going down from the cursor.
    pub proof fn lemma_after_next(self, term: Seq<char>)
        requires
            self.wf(),
            term.len() > 0,
            self.has_hit(term),
        ensures
            self.is_next_hit(term, self.after_next(term).cursor as int),
            self.after_next(term) == self.moved_to(self.after_next(term).cursor),
            self.after_next(term).wf(),
    {
        let n = self.lines.len() as int;
        let first = choose|i: int| self.hit(term, i);
        // Among the rows that hold the term, one is nearest: look at each distance in turn.
        let nearest = self.nearest_ahead(term, n);
        assert(self.ahead(first) <= n);
        assert(self.is_next_hit(term, nearest));
        let chosen = choose|i: int| self.is_next_hit(term, i);
        self.lemma_next_hit_unique(term, nearest, chosen);
        self.lemma_moved_to(chosen as nat);
    }

    /// The row that holds `term` nearest going down from the cursor, among those
    /// no further than `reach` rows away.
    proof fn nearest_ahead(self, term: Seq<char>, reach: int) -> (row: int)
        requires
            self.wf(),
            0 <= reach <= self.lines.len(),
            exists|i: int| self.hit(term, i) && self.ahead(i) <= reach,
        ensures
            self.hit(term, row),
            self.ahead(row) <= reach,
            forall|j: int| self.hit(term, j) ==> self.ahead(row) <= self.ahead(j),
        decreases reach,
    {
        if exists|i: int| self.hit(term, i) && self.ahead(i) <= reach - 1 {
            self.nearest_ahead(term, reach - 1)
        } else {
            let row = choose|i: int| self.hit(term, i) && self.ahead(i) <= reach;
            assert forall|j: int| self.hit(term, j) implies self.ahead(row) <= self.ahead(j) by {
                if self.ahead(j) < self.ahead(row) {
                    assert(self.hit(term, j) && self.ahead(j) <= reach - 1);
                }
            }
            row
        }
    }

    /// Where some row holds `term`, a search for the previous such row ends on the
    /// one that comes soonest going up from the cursor.
    pub proof fn lemma_after_prev(self, term: Seq<char>)
        requires
            self.wf(),
            term.len() > 0,
            self.has_hit(term),
        ensures
            self.is_prev_hit(term, self.after_prev(term).cursor as int),
            self.after_prev(term) == self.moved_to(self.after_prev(term).cursor),
            self.after_prev(term).wf(),
    {
        let n = self.lines.len() as int;
        let first = choose|i: int| self.hit(term, i);
        let nearest = self.nearest_behind(term, n);
        assert(self.behind(first) <= n);
        assert(self.is_prev_hit(term, nearest));
        let chosen = choose|i: int| self.is_prev_hit(term, i);
        self.lemma_prev_hit_unique(term, nearest, chosen);
        self.lemma_moved_to(chosen as nat);
    }

    /// The row that holds `term` nearest going up from the cursor, among those no
    /// further than `reach` rows away.
    proof fn nearest_behind(self, term: Seq<char>, reach: int) -> (row: int)
        requires
            self.wf(),
            0 <= reach <= self.lines.len(),
            exists|i: int| self.hit(term, i) && self.behind(i) <= reach,
        ensures
            self.hit(term, row),
            self.behind(row) <= reach,
            forall|j: int| self.hit(term, j) ==> self.behind(row) <= self.behind(j),
        decreases reach,
    {
        if exists|i: int| self.hit(term, i) && self.behind(i) <= reach - 1 {
            self.nearest_behind(term, reach - 1)
        } else {
            let row = choose|i: int| self.hit(term, i) && self.behind(i) <= reach;
            assert forall|j: int| self.hit(term, j) implies self.behind(row) <= self.behind(j) by {
                if self.behind(j) < self.behind(row) {
                    assert(self.hit(term, j) && self.behind(j) <= reach - 1);
                }
            }
            row
        }
    }

    /// Replacing the rows leaves the cursor on row 0 of a window without rows,
    /// and on one of the rows otherwise.
    pub proof fn law_cursor_after_set_lines(self, lines: Seq<Seq<PartView>>)
        requires
            self.wf(),
        ensures
            self.with_lines(lines).wf(),
            lines.len() == 0 ==> self.with_lines(lines).cursor == 0,
            lines.len() > 0 ==> self.with_lines(lines).cursor < lines.len(),
    {
    }

    /// No sequence of scrolling steps takes the first row shown past the last
    /// place from which the viewport is still filled, whatever the number of rows.
    pub proof fn law_scrolling_stays_in_range(self, steps: Seq<Scroll>)
        requires
            self.wf(),
        ensures
            self.scrolled_all(steps).wf(),
            self.scrolled_all(steps).top <= max_top(self.lines.len(), self.height()),
            self.scrolled_all(steps) == (WindowView { top: self.scrolled_all(steps).top, ..self }),
        decreases steps.len(),
    {
        if steps.len() > 0 {
            self.law_scrolling_stays_in_range(steps.drop_last());
        }
    }

    /// Where exactly one row holds `term`, the first search for the next such row
    /// puts the cursor on it, and every further search leaves it there.
    pub proof fn law_single_match_stable(self, term: Seq<char>, row: int, n: nat)
        requires
            self.wf(),
            term.len() > 0,
            self.hit(term, row),
            forall|j: int| self.hit(term, j) ==> j == row,
            n >= 1,
        ensures
            self.after_nexts(term, n).wf(),
            self.after_nexts(term, n).cursor == row,
            self.after_nexts(term, n).lines == self.lines,
        decreases n,
    {
        let before = self.after_nexts(term, (n - 1) as nat);
        if n > 1 {
            self.law_single_match_stable(term, row, (n - 1) as nat);
        }
        assert(before.hit(term, row));
        assert forall|j: int| before.hit(term, j) implies j == row by {
            assert(self.hit(term, j));
        }
        before.lemma_after_next(term);
    }

    /// A search with an empty term leaves the window as it is, cursor and first
    /// row shown included.
    pub proof fn law_empty_term_is_noop(self)
        ensures
            self.after_next(Seq::empty()) == self,
            self.after_prev(Seq::empty()) == self,
    {
    }
}

/// The viewport of one screen.
#[derive(Debug)]
pub struct Window {
    lines: Vec<Line>,
    cursor: usize,
    top: usize,
    size: ScreenSize,
    origin: Point,
    cursor_visible: bool,
}

impl View for Window {
    type V = WindowView;

    closed spec fn view(&self) -> WindowView {
        WindowView {
            lines: rows_of(self.lines@),
            cursor: self.cursor as nat,
            top: self.top as nat,
            size: self.size,
            origin: self.origin,
            cursor_visible: self.cursor_visible,
        }
    }
}

impl ScreenSize {
    /// The size that stands for "the whole terminal".
    pub fn max() -> (size: ScreenSize)
        ensures
            size == (ScreenSize { lines: 0, cols: 0 }),
    {
        ScreenSize { lines: 0, cols: 0 }
    }

    /// The size that a window of this size gets at `position` on a terminal of
    /// the size `terminal`.
    pub fn fit(self, position: Point, terminal: ScreenSize) -> (fitted: Result<
        ScreenSize,
        RenderError,
    >)
        ensures
            fitted == placed(self, position, terminal),
    {
        if self.lines < 0 || self.cols < 0 || position.x < 0 || position.y < 0 {
            return Err(RenderError::Negative);
        }
        let lines: i64 = if self.lines == 0 {
            terminal.lines as i64 - position.y as i64
        } else {
            self.lines as i64
        };
        let cols: i64 = if self.cols == 0 {
            terminal.cols as i64 - position.x as i64
        } else {
            self.cols as i64
        };
        if lines <= 0 || cols <= 0 {
            return Err(RenderError::Empty);
        }
        if position.y as i64 + lines > i32::MAX as i64 || position.x as i64 + cols > i32::MAX as i64 {
            return Err(RenderError::OutOfRange);
        }
        Ok(ScreenSize { lines: lines as i32, cols: cols as i32 })
    }
}

impl Window {
    #[verifier::type_invariant]
    spec fn inv(self) -> bool {
        self@.wf()
    }

    /// A window without rows, of the size that `size` gets at `position` on a
    /// terminal of the size `terminal`, with the terminal's cursor to be seen.
    pub fn new(size: ScreenSize, position: Point, terminal: ScreenSize) -> (made: Result<
        Window,
        RenderError,
    >)
        ensures
            match placed(size, position, terminal) {
                Ok(fitted) => made matches Ok(window) && window@ == (WindowView {
                    lines: Seq::empty(),
                    cursor: 0,
                    top: 0,
                    size: fitted,
                    origin: position,
                    cursor_visible: true,
                }) && window@.wf(),
                Err(error) => made matches Err(e) && e == error,
            },
    {
        match size.fit(position, terminal) {
            Err(error) => Err(error),
            Ok(fitted) => {
                let window = Window {
                    lines: Vec::new(),
                    cursor: 0,
                    top: 0,
                    size: fitted,
                    origin: position,
                    cursor_visible: true,
                };
                assert(window@.lines =~= Seq::empty());
                Ok(window)
            },
        }
    }

    /// The number of rows of the viewport.
    pub fn height(&self) -> (height: i32)
        ensures
            height == self@.size.lines,
            self@.wf(),
    {
        proof {
            use_type_invariant(self);
        }
        self.size.lines
    }

    /// The number of columns of the viewport.
    pub fn width(&self) -> (width: i32)
        ensures
            width == self@.size.cols,
            self@.wf(),
    {
        proof {
            use_type_invariant(self);
        }
        self.size.cols
    }

    /// The cell of the terminal at which the viewport begins.
    pub fn position(&self) -> (origin: Point)
        ensures
            origin == self@.origin,
            self@.wf(),
    {
        proof {
            use_type_invariant(self);
        }
        self.origin
    }

    /// The number of rows of content.
    pub fn len(&self) -> (len: usize)
        ensures
            len == self@.lines.len(),
            self@.wf(),
    {
        proof {
            use_type_invariant(self);
        }
        self.lines.len()
    }

    /// Row `i` of the content.
    pub fn line(&self, i: usize) -> (line: &Line)
        requires
            i < self@.lines.len(),
        ensures
            line@ == self@.lines[i as int],
    {
        &self.lines[i]
    }

    /// The row that the cursor is on.
    pub fn cursor(&self) -> (cursor: usize)
        ensures
            cursor == self@.cursor,
            self@.wf(),
    {
        proof {
            use_type_invariant(self);
        }
        self.cursor
    }

    /// The first row shown.
    pub fn top(&self) -> (top: usize)
        ensures
            top == self@.top,
            self@.wf(),
    {
        proof {
            use_type_invariant(self);
        }
        self.top
    }

    /// Whether the terminal's cursor is to be seen while this window is shown.
    pub fn is_cursor_visible(&self) -> (visible: bool)
        ensures
            visible == self@.cursor_visible,
            self@.wf(),
    {
        proof {
            use_type_invariant(self);
        }
        self.cursor_visible
    }

    /// Asks for the terminal's cursor to be seen, or not, while this window is
    /// shown. Nothing else changes.
    pub fn show_cursor(&mut self, visible: bool)
        ensures
            final(self)@ == (WindowView { cursor_visible: visible, ..old(self)@ }),
            final(self)@.wf(),
    {
        proof {
            use_type_invariant(&*self);
        }
        self.cursor_visible = visible;
    }

    /// Replaces the rows. The cursor and the first row shown stay where they
    /// were, or move back to the last place that the new rows allow.
    pub fn set_lines(&mut self, lines: Vec<Line>)
        ensures
            final(self)@ == old(self)@.with_lines(rows_of(lines@)),
            final(self)@.wf(),
            lines@.len() == 0 ==> final(self)@.cursor == 0,
            lines@.len() > 0 ==> final(self)@.cursor < lines@.len(),
    {
        proof {
            use_type_invariant(&*self);
        }
        let len = lines.len();
        let height = self.size.lines as usize;
        let cursor = if len == 0 {
            0
        } else if self.cursor < len {
            self.cursor
        } else {
            len - 1
        };
        let most = if len > height {
            len - height
        } else {
            0
        };
        let top = if self.top <= most {
            self.top
        } else {
            most
        };
        *self = Window {
            lines,
            cursor,
            top,
            size: self.size,
            origin: self.origin,
            cursor_visible: self.cursor_visible,
        };
    }

    /// The text of the row that the cursor is on; empty in a window without rows.
    pub fn get_cursor_line(&self) -> (text: String)
        ensures
            text@ == self@.cursor_text(),
            self@.wf(),
    {
        proof {
            use_type_invariant(self);
        }
        if self.lines.len() == 0 {
            String::new()
        } else {
            self.lines[self.cursor].text()
        }
    }

    /// Scrolls up by `n` rows, or to the first row if that is nearer. The cursor
    /// stays on its row.
    pub fn move_screen_up(&mut self, n: usize)
        ensures
            final(self)@ == old(self)@.scrolled_up(n as nat),
            final(self)@.wf(),
    {
        proof {
            use_type_invariant(&*self);
        }
        self.top = if n <= self.top {
            self.top - n
        } else {
            0
        };
    }

    /// Scrolls down by `n` rows, or as far as the viewport stays filled if that
    /// is nearer. The cursor stays on its row.
    pub fn move_screen_down(&mut self, n: usize)
        ensures
            final(self)@ == old(self)@.scrolled_down(n as nat),
            final(self)@.wf(),
    {
        proof {
            use_type_invariant(&*self);
        }
        let len = self.lines.len();
        let height = self.size.lines as usize;
        let most = if len > height {
            len - height
        } else {
            0
        };
        self.top = if n <= most - self.top {
            self.top + n
        } else {
            most
        };
    }

    /// Puts the cursor on `row` and scrolls, as little as can be, so that the row
    /// is seen.
    fn move_to(&mut self, row: usize)
        requires
            row < old(self)@.lines.len(),
        ensures
            final(self)@ == old(self)@.moved_to(row as nat),
            final(self)@.wf(),
    {
        proof {
            use_type_invariant(&*self);
            self@.lemma_moved_to(row as nat);
        }
        let height = self.size.lines as usize;
        let top = if row < self.top {
            row
        } else if row - self.top >= height {
            row - (height - 1)
        } else {
            self.top
        };
        self.top = top;
        self.cursor = row;
    }

    /// Whether the text of row `i` holds `term`.
    fn holds(&self, term: &str, i: usize) -> (holds: bool)
        requires
            i < self@.lines.len(),
        ensures
            holds == self@.hit(term@, i as int),
    {
        let text = self.lines[i].text();
        contains(text.as_str(), term)
    }

    /// Moves the cursor to the next row whose text holds `term`, going on from
    /// the last row to the first and as far as the cursor's own row, and scrolls
    /// so that the row is seen. An empty term, or one that no row holds, leaves
    /// the window as it is.
    pub fn move_next(&mut self, term: &str)
        ensures
            final(self)@ == old(self)@.after_next(term@),
            final(self)@.wf(),
            term@.len() == 0 ==> final(self)@ == old(self)@,
            !old(self)@.has_hit(term@) ==> final(self)@ == old(self)@,
            term@.len() > 0 && old(self)@.has_hit(term@) ==> old(self)@.is_next_hit(
                term@,
                final(self)@.cursor as int,
            ),
    {
        proof {
            use_type_invariant(&*self);
        }
        let len = self.lines.len();
        if len == 0 || term.is_empty() {
            return ;
        }
        let mut row: usize = self.cursor;
        let mut steps: usize = 0;
        while steps < len
            invariant
                self@ == old(self)@,
                self@.wf(),
                len == self@.lines.len(),
                len > 0,
                term@.len() > 0,
                steps <= len,
                row < len,
                row as int == if self.cursor + steps < len {
                    self.cursor + steps
                } else {
                    self.cursor + steps - len
                },
                self.cursor == self@.cursor,
                forall|j: int| self@.hit(term@, j) ==> self@.ahead(j) > steps,
            decreases len - steps,
        {
            row = if row + 1 == len {
                0
            } else {
                row + 1
            };
            steps += 1;
            if self.holds(term, row) {
                proof {
                    assert(self@.ahead(row as int) == steps);
                    assert(self@.is_next_hit(term@, row as int));
                    self@.lemma_after_next(term@);
                    self@.lemma_next_hit_unique(
                        term@,
                        row as int,
                        self@.after_next(term@).cursor as int,
                    );
                }
                self.move_to(row);
                return ;
            }
        }
    }

    /// Moves the cursor to the previous row whose text holds `term`, going on
    /// from the first row to the last and as far as the cursor's own row, and
    /// scrolls so that the row is seen. An empty term, or one that no row holds,
    /// leaves the window as it is.
    pub fn move_prev(&mut self, term: &str)
        ensures
            final(self)@ == old(self)@.after_prev(term@),
            final(self)@.wf(),
            term@.len() == 0 ==> final(self)@ == old(self)@,
            !old(self)@.has_hit(term@) ==> final(self)@ == old(self)@,
            term@.len() > 0 && old(self)@.has_hit(term@) ==> old(self)@.is_prev_hit(
                term@,
                final(self)@.cursor as int,
            ),
    {
        proof {
            use_type_invariant(&*self);
        }
        let len = self.lines.len();
        if len == 0 || term.is_empty() {
            return ;
        }
        let mut row: usize = self.cursor;
        let mut steps: usize = 0;
        while steps < len
            invariant
                self@ == old(self)@,
                self@.wf(),
                len == self@.lines.len(),
                len > 0,
                term@.len() > 0,
                steps <= len,
                row < len,
                row as int == if self.cursor >= steps {
                    self.cursor - steps
                } else {
                    self.cursor - steps + len
                },
                self.cursor == self@.cursor,
                forall|j: int| self@.hit(term@, j) ==> self@.behind(j) > steps,
            decreases len - steps,
        {
            row = if row == 0 {
                len - 1
            } else {
                row - 1
            };
            steps += 1;
            if self.holds(term, row) {
                proof {
                    assert(self@.behind(row as int) == steps);
                    assert(self@.is_prev_hit(term@, row as int));
                    self@.lemma_after_prev(term@);
                    self@.lemma_prev_hit_unique(
                        term@,
                        row as int,
                        self@.after_prev(term@).cursor as int,
                    );
                }
                self.move_to(row);
                return ;
            }
        }
    }
}

} // verus!
