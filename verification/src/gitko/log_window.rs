//! The screen that shows the commit log.

use crate::ascii_table::KEY_LF;
use crate::gitko::{
    plain_lines, plain_rows, texts_of, Overlay, OverlayView, Request, RequestView,
};
use crate::render::component::{asks, stays, Component, Reaction, ReactionView};
use crate::render::key_handlers::KeyHandlers;
use crate::render::window::{ScreenSize, Window, WindowView};
use crate::render::Point;
use crate::text::{take_chars, trim_graph, ungraphed};
use vstd::prelude::*;

verus! {

/// The screen that shows the commit log.
pub struct LogWindow {
    log: Vec<String>,
}

/// The handlers of the log screen.
#[derive(Clone, Copy, PartialEq, Eq, Debug, Structural)]
pub enum LogAction {
    GetCommitLog,
}

/// The number of characters of a commit's hash that a log entry begins with.
pub const HASH_LEN: usize = 7;

/// What the log entry `line` has after the marks of the commit graph: it
/// begins with the hash of the commit.
pub open spec fn entry_of(line: Seq<char>) -> Seq<char> {
    ungraphed(line)
}

/// What "show this commit" answers on the row `line`: on a row that is too
/// short to begin with a hash, nothing; otherwise the changes of the commit,
/// on the whole terminal.
pub open spec fn commit_log(line: Seq<char>) -> ReactionView<RequestView> {
    if entry_of(line).len() < HASH_LEN {
        stays()
    } else {
        asks(
            RequestView::Show {
                screen: OverlayView::CommitDiff { hash: entry_of(line).take(HASH_LEN as int) },
                size: ScreenSize { lines: 0, cols: 0 },
                position: Point { x: 0, y: 0 },
            },
            false,
        )
    }
}

impl LogWindow {
    /// The log screen, with no entry yet.
    pub fn new() -> (screen: LogWindow)
        ensures
            screen.entries() == Seq::<Seq<char>>::empty(),
    {
        let screen = LogWindow { log: Vec::new() };
        assert(screen.entries() =~= Seq::<Seq<char>>::empty());
        screen
    }

    /// The entries of the log, first to last.
    pub closed spec fn entries(&self) -> Seq<Seq<char>> {
        texts_of(self.log@)
    }

    /// Asks for the changes of the commit on the cursor's row.
    pub fn get_commit_log(&mut self, window: &mut Window) -> (reaction: Reaction<Request>)
        ensures
            reaction@ == commit_log(old(window)@.cursor_text()),
            *final(self) == *old(self),
            final(window)@ == old(window)@,
    {
        let line = window.get_cursor_line();
        let entry = trim_graph(line.as_str());
        if entry.as_str().unicode_len() < HASH_LEN {
            return Reaction::stay();
        }
        let hash = take_chars(entry.as_str(), HASH_LEN);
        Reaction::ask(
            Request::Show {
                screen: Overlay::CommitDiff { hash },
                size: ScreenSize::max(),
                position: Point { x: 0, y: 0 },
            },
            false,
        )
    }
}

impl Component for LogWindow {
    type Action = LogAction;

    type Request = Request;

    type Source = Vec<String>;

    open spec fn loaded(pre: &Self, source: &Vec<String>, post: &Self) -> bool {
        post.entries() == texts_of(source@)
    }

    /// The window shows the entries of the log.
    open spec fn started(pre: &Self, window: WindowView, post: &Self, shown: WindowView) -> bool {
        *post == *pre && shown == window.with_lines(plain_rows(pre.entries()))
    }

    open spec fn exited(pre: &Self, window: WindowView, post: &Self, shown: WindowView) -> bool {
        *post == *pre && shown == window
    }

    /// Enter shows the commit on the cursor's row.
    open spec fn bindings(&self) -> Map<i32, LogAction> {
        map![KEY_LF => LogAction::GetCommitLog]
    }

    open spec fn handled(
        pre: &Self,
        window: WindowView,
        action: LogAction,
        post: &Self,
        shown: WindowView,
        reaction: &Reaction<Request>,
    ) -> bool {
        *post == *pre && shown == window && reaction@ == commit_log(window.cursor_text())
    }

    fn load(&mut self, source: Vec<String>) {
        self.log = source;
    }

    fn on_start(&mut self, window: &mut Window) {
        window.set_lines(plain_lines(&self.log));
    }

    fn on_exit(&mut self, window: &mut Window) {
    }

    fn register_handlers(&self, handlers: &mut KeyHandlers<LogAction>) {
        handlers.insert(KEY_LF, LogAction::GetCommitLog);
        assert(handlers@ =~= old(handlers)@.union_prefer_right(self.bindings()));
    }

    fn handle(&mut self, action: LogAction, window: &mut Window) -> (reaction: Reaction<Request>) {
        match action {
            LogAction::GetCommitLog => self.get_commit_log(window),
        }
    }
}

} // verus!
