//! A screen that shows lines of text and binds no key.

use crate::gitko::{plain_rows, Request, RequestView};
use crate::render::component::{stays, Component, Reaction};
use crate::render::key_handlers::KeyHandlers;
use crate::render::line::{unstyled, Line};
use crate::render::window::{rows_of, Window, WindowView};
use vstd::prelude::*;

verus! {

/// The one handler of a screen that binds no key: it does nothing.
#[derive(Clone, Copy, PartialEq, Eq, Debug, Structural)]
pub struct NoAction;

/// A screen that shows lines of text.
pub struct TextWindow<'text> {
    pub lines: Vec<&'text str>,
}

/// The texts of `lines`.
pub open spec fn texts_in(lines: Seq<&str>) -> Seq<Seq<char>> {
    lines.map_values(|line: &str| line@)
}

impl<'text> Component for TextWindow<'text> {
    type Action = NoAction;

    type Request = Request;

    type Source = Vec<&'text str>;

    open spec fn loaded(pre: &Self, source: &Vec<&'text str>, post: &Self) -> bool {
        post.lines == *source
    }

    /// The terminal's cursor is hidden and the window shows the lines.
    open spec fn started(pre: &Self, window: WindowView, post: &Self, shown: WindowView) -> bool {
        &&& *post == *pre
        &&& shown == (WindowView { cursor_visible: false, ..window }).with_lines(
            plain_rows(texts_in(pre.lines@)),
        )
    }

    open spec fn exited(pre: &Self, window: WindowView, post: &Self, shown: WindowView) -> bool {
        *post == *pre && shown == window
    }

    open spec fn bindings(&self) -> Map<i32, NoAction> {
        Map::empty()
    }

    open spec fn handled(
        pre: &Self,
        window: WindowView,
        action: NoAction,
        post: &Self,
        shown: WindowView,
        reaction: &Reaction<Request>,
    ) -> bool {
        *post == *pre && shown == window && reaction@ == stays::<RequestView>()
    }

    fn load(&mut self, source: Vec<&'text str>) {
        self.lines = source;
    }

    fn on_start(&mut self, window: &mut Window) {
        window.show_cursor(false);
        let mut rows: Vec<Line> = Vec::new();
        let mut i: usize = 0;
        while i < self.lines.len()
            invariant
                i <= self.lines.len(),
                rows_of(rows@) == plain_rows(texts_in(self.lines@.take(i as int))),
            decreases self.lines.len() - i,
        {
            let ghost before = rows@;
            rows.push(Line::plain(self.lines[i]));
            proof {
                assert(self.lines@.take(i + 1) =~= self.lines@.take(i as int).push(
                    self.lines@[i as int],
                ));
                assert(rows_of(rows@) =~= rows_of(before).push(
                    seq![unstyled(self.lines@[i as int]@)],
                ));
                assert(plain_rows(texts_in(self.lines@.take(i + 1))) =~= plain_rows(
                    texts_in(self.lines@.take(i as int)),
                ).push(seq![unstyled(self.lines@[i as int]@)]));
            }
            i += 1;
        }
        assert(self.lines@.take(i as int) =~= self.lines@);
        window.set_lines(rows);
    }

    fn on_exit(&mut self, window: &mut Window) {
    }

    fn register_handlers(&self, handlers: &mut KeyHandlers<NoAction>) {
        assert(handlers@.union_prefer_right(self.bindings()) =~= handlers@);
    }

    fn handle(&mut self, action: NoAction, window: &mut Window) -> (reaction: Reaction<Request>) {
        Reaction::stay()
    }
}

} // verus!
