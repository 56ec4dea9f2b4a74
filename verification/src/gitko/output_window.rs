//! The screen that shows what a command printed.

use crate::ascii_table::{KEY_ETB, KEY_LF};
use crate::gitko::{heading, heading_line, plain_rows, push_plain, texts_of, Request, RequestView};
use crate::render::component::{leaves, Component, Reaction};
use crate::render::key_handlers::KeyHandlers;
use crate::render::line::Line;
use crate::render::window::{rows_of, Window, WindowView};
use vstd::prelude::*;

verus! {

/// The screen that shows what a command printed.
pub struct OutputWindow {
    pub output: Vec<String>,
}

/// The handlers of the output screen.
#[derive(Clone, Copy, PartialEq, Eq, Debug, Structural)]
pub enum OutputAction {
    Close,
}

/// The rows of the output screen: a title, then the output.
pub open spec fn output_rows(output: Seq<Seq<char>>) -> Seq<Seq<crate::render::line::PartView>> {
    seq![seq![heading("Command output:"@)]] + plain_rows(output)
}

impl OutputWindow {
    /// Leaves the screen.
    pub fn close(&mut self, window: &mut Window) -> (proceed: bool)
        ensures
            !proceed,
            *final(self) == *old(self),
            final(window)@ == old(window)@,
    {
        false
    }
}

impl Component for OutputWindow {
    type Action = OutputAction;

    type Request = Request;

    type Source = Vec<String>;

    open spec fn loaded(pre: &Self, source: &Vec<String>, post: &Self) -> bool {
        post.output == *source
    }

    /// The terminal's cursor is hidden and the window shows the title and the
    /// output.
    open spec fn started(pre: &Self, window: WindowView, post: &Self, shown: WindowView) -> bool {
        &&& *post == *pre
        &&& shown == (WindowView { cursor_visible: false, ..window }).with_lines(
            output_rows(texts_of(pre.output@)),
        )
    }

    /// The terminal's cursor is shown again.
    open spec fn exited(pre: &Self, window: WindowView, post: &Self, shown: WindowView) -> bool {
        *post == *pre && shown == (WindowView { cursor_visible: true, ..window })
    }

    /// Enter and control-W close the screen.
    open spec fn bindings(&self) -> Map<i32, OutputAction> {
        map![KEY_LF => OutputAction::Close, KEY_ETB => OutputAction::Close]
    }

    open spec fn handled(
        pre: &Self,
        window: WindowView,
        action: OutputAction,
        post: &Self,
        shown: WindowView,
        reaction: &Reaction<Request>,
    ) -> bool {
        *post == *pre && shown == window && reaction@ == leaves::<RequestView>()
    }

    fn load(&mut self, source: Vec<String>) {
        self.output = source;
    }

    fn on_start(&mut self, window: &mut Window) {
        window.show_cursor(false);
        let mut lines: Vec<Line> = Vec::new();
        lines.push(heading_line("Command output:"));
        assert(rows_of(lines@) =~= seq![seq![heading("Command output:"@)]]);
        push_plain(&mut lines, &self.output);
        window.set_lines(lines);
    }

    fn on_exit(&mut self, window: &mut Window) {
        window.show_cursor(true);
    }

    fn register_handlers(&self, handlers: &mut KeyHandlers<OutputAction>) {
        handlers.insert(KEY_LF, OutputAction::Close);
        handlers.insert(KEY_ETB, OutputAction::Close);
        assert(handlers@ =~= old(handlers)@.union_prefer_right(self.bindings()));
    }

    fn handle(&mut self, action: OutputAction, window: &mut Window) -> (reaction: Reaction<
        Request,
    >) {
        match action {
            OutputAction::Close => {
                let proceed = self.close(window);
                Reaction { proceed, request: None, refresh: false }
            },
        }
    }
}

} // verus!
