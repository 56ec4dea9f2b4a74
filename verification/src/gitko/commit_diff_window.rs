//! The screen that shows the changes of one commit, added lines in green,
//! removed lines in red and the headers of the hunks in cyan.

use crate::ascii_table::{
    KEY_EOT, KEY_FORWARD_SLASH, KEY_J_LOWER, KEY_K_LOWER, KEY_NAK, KEY_N_LOWER, KEY_N_UPPER,
};
use crate::gitko::{texts_of, Request, RequestView};
use crate::render::component::{asks, stays, Component, Reaction, ReactionView};
use crate::render::key_handlers::KeyHandlers;
use crate::render::line::{coloured, unstyled, Color, Line, Part, PartView};
use crate::render::palette::{black, cyan, green, red, BLACK, CYAN, GREEN, RED};
use crate::render::search::SearchableComponent;
use crate::render::window::{rows_of, ScreenSize, Window, WindowView};
use crate::render::Point;
use crate::text::{starts_with, starts_with_char};
use vstd::prelude::*;

verus! {

/// The screen that shows the changes of one commit.
pub struct CommitDiffWindow {
    commit_hash: String,
    term: String,
    diff: Vec<String>,
}

/// The handlers of the commit screen.
#[derive(Clone, Copy, PartialEq, Eq, Debug, Structural)]
pub enum DiffAction {
    MoveScreenDown,
    MoveScreenUp,
    JumpScreenDown,
    JumpScreenUp,
    NextSearchResult,
    PrevSearchResult,
    SearchCommits,
}

/// The number of rows that a jump scrolls by.
pub const JUMP: usize = 20;

/// The row that shows the line `text` of a diff: green on black where it
/// begins with `+`, red on black where it begins with `-`, cyan on black where
/// it begins with `@@`, and plain otherwise.
pub open spec fn diff_row(text: Seq<char>) -> Seq<PartView> {
    if text.len() > 0 && text[0] == '+' {
        seq![coloured(text, Color::Indexed(GREEN), Color::Indexed(BLACK))]
    } else if text.len() > 0 && text[0] == '-' {
        seq![coloured(text, Color::Indexed(RED), Color::Indexed(BLACK))]
    } else if "@@"@.is_prefix_of(text) {
        seq![coloured(text, Color::Indexed(CYAN), Color::Indexed(BLACK))]
    } else {
        seq![unstyled(text)]
    }
}

/// The rows that show the lines `texts` of a diff.
pub open spec fn diff_rows(texts: Seq<Seq<char>>) -> Seq<Seq<PartView>> {
    texts.map_values(|text: Seq<char>| diff_row(text))
}

/// What "search" answers in `window`: the line on which the term is entered,
/// on the window's last two rows and as wide as the window.
pub open spec fn search_prompt(window: WindowView) -> ReactionView<RequestView> {
    asks(
        RequestView::AskSearchTerm {
            size: ScreenSize { lines: 2, cols: window.size.cols },
            position: Point { x: 0, y: (window.size.lines - 2) as i32 },
        },
        false,
    )
}

/// The row with the one fragment `text` in `foreground` on the palette's black.
fn on_black(text: &str, foreground: Color) -> (line: Line)
    ensures
        line@ == seq![coloured(text@, foreground, Color::Indexed(BLACK))],
{
    let mut parts: Vec<Part> = Vec::new();
    parts.push(Part::painted(text, foreground, black()));
    let line = Line::new(parts);
    assert(line@ =~= seq![coloured(text@, foreground, Color::Indexed(BLACK))]);
    line
}

/// The row that shows the line `line` of a diff.
pub fn map_line(line: String) -> (row: Line)
    ensures
        row@ == diff_row(line@),
{
    let text = line.as_str();
    if starts_with_char(text, '+') {
        on_black(text, green())
    } else if starts_with_char(text, '-') {
        on_black(text, red())
    } else if starts_with(text, "@@") {
        on_black(text, cyan())
    } else {
        Line::from_string(line)
    }
}

impl CommitDiffWindow {
    /// The screen for the commit whose hash is `commit_hash`, with no search
    /// term and no line yet.
    pub fn new(commit_hash: &str) -> (screen: CommitDiffWindow)
        ensures
            screen.hash() == commit_hash@,
            screen.kept_term() == Seq::<char>::empty(),
            screen.lines() == Seq::<Seq<char>>::empty(),
    {
        let screen = CommitDiffWindow {
            commit_hash: commit_hash.to_owned(),
            term: String::new(),
            diff: Vec::new(),
        };
        assert(screen.lines() =~= Seq::<Seq<char>>::empty());
        screen
    }

    /// The hash of the commit.
    pub closed spec fn hash(&self) -> Seq<char> {
        self.commit_hash@
    }

    /// The lines of the diff, first to last.
    pub closed spec fn lines(&self) -> Seq<Seq<char>> {
        texts_of(self.diff@)
    }

    /// The term that the screen searches for.
    pub closed spec fn kept_term(&self) -> Seq<char> {
        self.term@
    }

    /// `self` is `other` but for the search term, which is `term`.
    pub open spec fn is_with_term(&self, other: &Self, term: Seq<char>) -> bool {
        &&& self.hash() == other.hash()
        &&& self.lines() == other.lines()
        &&& self.kept_term() == term
    }

    /// The hash of the commit.
    pub fn commit_hash(&self) -> (hash: &str)
        ensures
            hash@ == self.hash(),
    {
        self.commit_hash.as_str()
    }

    /// Scrolls up by one row.
    pub fn move_screen_up(&mut self, window: &mut Window) -> (proceed: bool)
        ensures
            proceed,
            *final(self) == *old(self),
            final(window)@ == old(window)@.scrolled_up(1),
    {
        window.move_screen_up(1);
        true
    }

    /// Scrolls down by one row.
    pub fn move_screen_down(&mut self, window: &mut Window) -> (proceed: bool)
        ensures
            proceed,
            *final(self) == *old(self),
            final(window)@ == old(window)@.scrolled_down(1),
    {
        window.move_screen_down(1);
        true
    }

    /// Scrolls up by `JUMP` rows, one row at a time.
    pub fn jump_screen_up(&mut self, window: &mut Window) -> (proceed: bool)
        ensures
            proceed,
            *final(self) == *old(self),
            final(window)@ == old(window)@.scrolled_up(JUMP as nat),
    {
        let mut i: usize = 0;
        while i < JUMP
            invariant
                i <= JUMP,
                *self == *old(self),
                window@ == old(window)@.scrolled_up(i as nat),
            decreases JUMP - i,
        {
            self.move_screen_up(window);
            i += 1;
        }
        true
    }

    /// Scrolls down by `JUMP` rows, one row at a time.
    pub fn jump_screen_down(&mut self, window: &mut Window) -> (proceed: bool)
        ensures
            proceed,
            *final(self) == *old(self),
            final(window)@ == old(window)@.scrolled_down(JUMP as nat),
    {
        let rows = window.len();
        let mut i: usize = 0;
        while i < JUMP
            invariant
                i <= JUMP,
                *self == *old(self),
                old(window)@.wf(),
                old(window)@.lines.len() == rows,
                window@ == old(window)@.scrolled_down(i as nat),
            decreases JUMP - i,
        {
            self.move_screen_down(window);
            i += 1;
        }
        true
    }

    /// Forgets the search term and asks for a new one. The host hands what the
    /// user enters to the session, which keeps it and goes to the next row
    /// that holds it.
    pub fn search_commits(&mut self, window: &mut Window) -> (reaction: Reaction<Request>)
        ensures
            reaction@ == search_prompt(old(window)@),
            final(self).is_with_term(old(self), Seq::empty()),
            final(window)@ == old(window)@,
    {
        self.clear_search();
        let size = ScreenSize { lines: 2, cols: window.width() };
        let position = Point { x: 0, y: window.height() - 2 };
        Reaction::ask(Request::AskSearchTerm { size, position }, false)
    }

    /// Goes to the next row that holds the search term.
    pub fn next_search_result(&mut self, window: &mut Window) -> (proceed: bool)
        ensures
            proceed,
            *final(self) == *old(self),
            final(window)@ == old(window)@.after_next(old(self).kept_term()),
    {
        window.move_next(self.term.as_str());
        true
    }

    /// Goes to the previous row that holds the search term.
    pub fn prev_search_result(&mut self, window: &mut Window) -> (proceed: bool)
        ensures
            proceed,
            *final(self) == *old(self),
            final(window)@ == old(window)@.after_prev(old(self).kept_term()),
    {
        window.move_prev(self.term.as_str());
        true
    }

    /// Forgets the search term.
    pub fn clear_search(&mut self)
        ensures
            final(self).is_with_term(old(self), Seq::empty()),
    {
        self.term = String::new();
    }
}

impl Component for CommitDiffWindow {
    type Action = DiffAction;

    type Request = Request;

    type Source = Vec<String>;

    open spec fn loaded(pre: &Self, source: &Vec<String>, post: &Self) -> bool {
        &&& post.lines() == texts_of(source@)
        &&& post.hash() == pre.hash()
        &&& post.kept_term() == pre.kept_term()
    }

    /// The terminal's cursor is hidden and the window shows the diff.
    open spec fn started(pre: &Self, window: WindowView, post: &Self, shown: WindowView) -> bool {
        &&& *post == *pre
        &&& shown == (WindowView { cursor_visible: false, ..window }).with_lines(
            diff_rows(pre.lines()),
        )
    }

    /// The terminal's cursor is shown again.
    open spec fn exited(pre: &Self, window: WindowView, post: &Self, shown: WindowView) -> bool {
        *post == *pre && shown == (WindowView { cursor_visible: true, ..window })
    }

    /// `j` and `k` scroll by a row, control-D and control-U by a jump; `/`
    /// searches, `n` and `N` repeat the search.
    open spec fn bindings(&self) -> Map<i32, DiffAction> {
        map![
            KEY_J_LOWER => DiffAction::MoveScreenDown,
            KEY_K_LOWER => DiffAction::MoveScreenUp,
            KEY_EOT => DiffAction::JumpScreenDown,
            KEY_NAK => DiffAction::JumpScreenUp,
            KEY_N_LOWER => DiffAction::NextSearchResult,
            KEY_N_UPPER => DiffAction::PrevSearchResult,
            KEY_FORWARD_SLASH => DiffAction::SearchCommits,
        ]
    }

    open spec fn handled(
        pre: &Self,
        window: WindowView,
        action: DiffAction,
        post: &Self,
        shown: WindowView,
        reaction: &Reaction<Request>,
    ) -> bool {
        match action {
            DiffAction::MoveScreenDown => *post == *pre && shown == window.scrolled_down(1)
                && reaction@ == stays::<RequestView>(),
            DiffAction::MoveScreenUp => *post == *pre && shown == window.scrolled_up(1)
                && reaction@ == stays::<RequestView>(),
            DiffAction::JumpScreenDown => *post == *pre && shown == window.scrolled_down(
                JUMP as nat,
            ) && reaction@ == stays::<RequestView>(),
            DiffAction::JumpScreenUp => *post == *pre && shown == window.scrolled_up(JUMP as nat)
                && reaction@ == stays::<RequestView>(),
            DiffAction::NextSearchResult => *post == *pre && shown == window.after_next(
                pre.kept_term(),
            ) && reaction@ == stays::<RequestView>(),
            DiffAction::PrevSearchResult => *post == *pre && shown == window.after_prev(
                pre.kept_term(),
            ) && reaction@ == stays::<RequestView>(),
            DiffAction::SearchCommits => post.is_with_term(pre, Seq::empty()) && shown == window
                && reaction@ == search_prompt(window),
        }
    }

    fn load(&mut self, source: Vec<String>) {
        self.diff = source;
    }

    fn on_start(&mut self, window: &mut Window) {
        window.show_cursor(false);
        let mut rows: Vec<Line> = Vec::new();
        let mut i: usize = 0;
        while i < self.diff.len()
            invariant
                i <= self.diff.len(),
                rows_of(rows@) == diff_rows(texts_of(self.diff@.take(i as int))),
            decreases self.diff.len() - i,
        {
            let ghost before = rows@;
            rows.push(map_line(self.diff[i].clone()));
            proof {
                assert(self.diff@.take(i + 1) =~= self.diff@.take(i as int).push(
                    self.diff@[i as int],
                ));
                assert(rows_of(rows@) =~= rows_of(before).push(diff_row(self.diff@[i as int]@)));
                assert(diff_rows(texts_of(self.diff@.take(i + 1))) =~= diff_rows(
                    texts_of(self.diff@.take(i as int)),
                ).push(diff_row(self.diff@[i as int]@)));
            }
            i += 1;
        }
        assert(self.diff@.take(i as int) =~= self.diff@);
        window.set_lines(rows);
    }

    fn on_exit(&mut self, window: &mut Window) {
        window.show_cursor(true);
    }

    fn register_handlers(&self, handlers: &mut KeyHandlers<DiffAction>) {
        handlers.insert(KEY_J_LOWER, DiffAction::MoveScreenDown);
        handlers.insert(KEY_K_LOWER, DiffAction::MoveScreenUp);
        handlers.insert(KEY_EOT, DiffAction::JumpScreenDown);
        handlers.insert(KEY_NAK, DiffAction::JumpScreenUp);
        handlers.insert(KEY_N_LOWER, DiffAction::NextSearchResult);
        handlers.insert(KEY_N_UPPER, DiffAction::PrevSearchResult);
        handlers.insert(KEY_FORWARD_SLASH, DiffAction::SearchCommits);
        assert(handlers@ =~= old(handlers)@.union_prefer_right(self.bindings()));
    }

    fn handle(&mut self, action: DiffAction, window: &mut Window) -> (reaction: Reaction<
        Request,
    >) {
        let proceed = match action {
            DiffAction::MoveScreenDown => self.move_screen_down(window),
            DiffAction::MoveScreenUp => self.move_screen_up(window),
            DiffAction::JumpScreenDown => self.jump_screen_down(window),
            DiffAction::JumpScreenUp => self.jump_screen_up(window),
            DiffAction::NextSearchResult => self.next_search_result(window),
            DiffAction::PrevSearchResult => self.prev_search_result(window),
            DiffAction::SearchCommits => {
                return self.search_commits(window);
            },
        };
        Reaction { proceed, request: None, refresh: false }
    }
}

impl SearchableComponent for CommitDiffWindow {
    open spec fn search_term(&self) -> Seq<char> {
        self.kept_term()
    }

    open spec fn with_term(pre: &Self, term: Seq<char>, post: &Self) -> bool {
        post.is_with_term(pre, term)
    }

    fn term(&self) -> (term: String) {
        self.term.clone()
    }

    fn set_term(&mut self, term: String) {
        self.term = term;
    }
}

} // verus!
