//! The screen that lists the branches. The row of the branch that is checked
//! out begins with `*`.

use crate::ascii_table::{KEY_D_LOWER, KEY_LF, KEY_N_LOWER};
use crate::gitko::{
    plain_lines, plain_rows, texts_of, Command, CommandView, Request, RequestView,
};
use crate::render::component::{asks, reloads, stays, Component, Reaction, ReactionView};
use crate::render::key_handlers::KeyHandlers;
use crate::render::window::{ScreenSize, Window, WindowView};
use crate::render::Point;
use crate::text::{starts_with_char, trim, trimmed};
use vstd::prelude::*;

verus! {

/// The screen that lists the branches.
pub struct BranchWindow {
    branches: Vec<String>,
}

/// The handlers of the branch screen.
#[derive(Clone, Copy, PartialEq, Eq, Debug, Structural)]
pub enum BranchAction {
    OpenDeleteBranchPrompt,
    CheckoutBranch,
    CreateBranch,
}

/// The row `line` names the branch that is checked out.
pub open spec fn is_current(line: Seq<char>) -> bool {
    line.len() > 0 && line[0] == '*'
}

/// The question to confirm before the branch `branch` is deleted.
pub open spec fn delete_branch_question(branch: Seq<char>) -> Seq<char> {
    "Are you sure you want to delete branch '"@ + branch + "'? y/n"@
}

/// The label that is shown above the line on which a new branch is named.
pub open spec fn new_branch_label() -> Seq<char> {
    "Enter new lbranch name:"@
}

/// What "delete this branch" answers in `window`: on a blank row and on the
/// row of the branch that is checked out, nothing; otherwise the question on
/// the window's last row, the deletion if it is confirmed, and the list anew.
pub open spec fn delete_branch_prompt(window: WindowView) -> ReactionView<RequestView> {
    let line = window.cursor_text();
    if trimmed(line).len() == 0 || is_current(line) {
        stays()
    } else {
        asks(
            RequestView::Confirm {
                message: delete_branch_question(trimmed(line)),
                command: CommandView::DeleteBranch(trimmed(line)),
                size: ScreenSize { lines: 1, cols: 0 },
                position: Point { x: 0, y: (window.size.lines - 1) as i32 },
            },
            true,
        )
    }
}

/// What "check this branch out" answers on the row `line`: on a blank row,
/// nothing; on the row of the branch that is checked out, the list anew;
/// otherwise the checkout, and the list anew.
pub open spec fn branch_checkout(line: Seq<char>) -> ReactionView<RequestView> {
    if trimmed(line).len() == 0 {
        stays()
    } else if is_current(line) {
        reloads()
    } else {
        asks(RequestView::Run(CommandView::CheckoutBranch(trimmed(line))), true)
    }
}

/// What "new branch" answers in `window`: the label on the window's last row
/// but one, the line for the name below it, and the list anew.
pub open spec fn branch_creation(window: WindowView) -> ReactionView<RequestView> {
    asks(
        RequestView::AskBranchName {
            label: new_branch_label(),
            label_size: ScreenSize { lines: 1, cols: 0 },
            label_position: Point { x: 0, y: (window.size.lines - 2) as i32 },
            size: ScreenSize { lines: 2, cols: 0 },
            position: Point { x: 0, y: (window.size.lines - 1) as i32 },
        },
        true,
    )
}

impl BranchWindow {
    /// The branch screen, with no branch yet.
    pub fn new() -> (screen: BranchWindow)
        ensures
            screen.names() == Seq::<Seq<char>>::empty(),
    {
        let screen = BranchWindow { branches: Vec::new() };
        assert(screen.names() =~= Seq::<Seq<char>>::empty());
        screen
    }

    /// The rows of the list, first to last.
    pub closed spec fn names(&self) -> Seq<Seq<char>> {
        texts_of(self.branches@)
    }

    /// Asks to confirm the deletion of the branch on the cursor's row.
    pub fn open_delete_branch_prompt(&mut self, window: &mut Window) -> (reaction: Reaction<
        Request,
    >)
        ensures
            reaction@ == delete_branch_prompt(old(window)@),
            *final(self) == *old(self),
            final(window)@ == old(window)@,
    {
        let line = window.get_cursor_line();
        let branch = trim(line.as_str());
        if branch.as_str().unicode_len() == 0 || starts_with_char(line.as_str(), '*') {
            return Reaction::stay();
        }
        let mut message = "Are you sure you want to delete branch '".to_owned();
        message.append(branch.as_str());
        message.append("'? y/n");
        let position = Point { x: 0, y: window.height() - 1 };
        Reaction::ask(
            Request::Confirm {
                message,
                command: Command::DeleteBranch(branch),
                size: ScreenSize { lines: 1, cols: 0 },
                position,
            },
            true,
        )
    }

    /// Asks for the branch on the cursor's row to be checked out.
    pub fn checkout_branch(&mut self, window: &mut Window) -> (reaction: Reaction<Request>)
        ensures
            reaction@ == branch_checkout(old(window)@.cursor_text()),
            *final(self) == *old(self),
            final(window)@ == old(window)@,
    {
        let line = window.get_cursor_line();
        let branch = trim(line.as_str());
        if branch.as_str().unicode_len() == 0 {
            Reaction::stay()
        } else if starts_with_char(line.as_str(), '*') {
            Reaction::reload()
        } else {
            Reaction::ask(Request::Run(Command::CheckoutBranch(branch)), true)
        }
    }

    /// Asks for a new branch, whose name the user is to enter.
    pub fn create_branch(&mut self, window: &mut Window) -> (reaction: Reaction<Request>)
        ensures
            reaction@ == branch_creation(old(window)@),
            *final(self) == *old(self),
            final(window)@ == old(window)@,
    {
        let height = window.height();
        Reaction::ask(
            Request::AskBranchName {
                label: "Enter new lbranch name:".to_owned(),
                label_size: ScreenSize { lines: 1, cols: 0 },
                label_position: Point { x: 0, y: height - 2 },
                size: ScreenSize { lines: 2, cols: 0 },
                position: Point { x: 0, y: height - 1 },
            },
            true,
        )
    }
}

impl Component for BranchWindow {
    type Action = BranchAction;

    type Request = Request;

    type Source = Vec<String>;

    open spec fn loaded(pre: &Self, source: &Vec<String>, post: &Self) -> bool {
        post.names() == texts_of(source@)
    }

    /// The window shows the list of branches.
    open spec fn started(pre: &Self, window: WindowView, post: &Self, shown: WindowView) -> bool {
        *post == *pre && shown == window.with_lines(plain_rows(pre.names()))
    }

    open spec fn exited(pre: &Self, window: WindowView, post: &Self, shown: WindowView) -> bool {
        *post == *pre && shown == window
    }

    /// `d` deletes, Enter checks out, `n` creates.
    open spec fn bindings(&self) -> Map<i32, BranchAction> {
        map![
            KEY_D_LOWER => BranchAction::OpenDeleteBranchPrompt,
            KEY_LF => BranchAction::CheckoutBranch,
            KEY_N_LOWER => BranchAction::CreateBranch,
        ]
    }

    open spec fn handled(
        pre: &Self,
        window: WindowView,
        action: BranchAction,
        post: &Self,
        shown: WindowView,
        reaction: &Reaction<Request>,
    ) -> bool {
        &&& *post == *pre
        &&& shown == window
        &&& reaction@ == match action {
            BranchAction::OpenDeleteBranchPrompt => delete_branch_prompt(window),
            BranchAction::CheckoutBranch => branch_checkout(window.cursor_text()),
            BranchAction::CreateBranch => branch_creation(window),
        }
    }

    fn load(&mut self, source: Vec<String>) {
        self.branches = source;
    }

    fn on_start(&mut self, window: &mut Window) {
        window.set_lines(plain_lines(&self.branches));
    }

    fn on_exit(&mut self, window: &mut Window) {
    }

    fn register_handlers(&self, handlers: &mut KeyHandlers<BranchAction>) {
        handlers.insert(KEY_D_LOWER, BranchAction::OpenDeleteBranchPrompt);
        handlers.insert(KEY_LF, BranchAction::CheckoutBranch);
        handlers.insert(KEY_N_LOWER, BranchAction::CreateBranch);
        assert(handlers@ =~= old(handlers)@.union_prefer_right(self.bindings()));
    }

    fn handle(&mut self, action: BranchAction, window: &mut Window) -> (reaction: Reaction<
        Request,
    >) {
        match action {
            BranchAction::OpenDeleteBranchPrompt => self.open_delete_branch_prompt(window),
            BranchAction::CheckoutBranch => self.checkout_branch(window),
            BranchAction::CreateBranch => self.create_branch(window),
        }
    }
}

} // verus!
