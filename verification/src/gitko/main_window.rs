//! The status screen: the branch that is checked out, and the paths of the
//! working tree by what has happened to them.

use crate::ascii_table::{
    KEY_B_LOWER, KEY_COLON, KEY_C_LOWER, KEY_C_UPPER, KEY_D_LOWER, KEY_LF, KEY_L_LOWER,
    KEY_O_UPPER, KEY_P_UPPER, KEY_R_UPPER, KEY_T_LOWER, KEY_U_LOWER,
};
use crate::gitko::commit_diff_window::search_prompt;
use crate::gitko::snapshot::{
    collect_new, counted, deleted_section, is_deleted, is_staged, is_unstaged, nothing, section,
    select,
    staged_section, status_rows, top_rows, unstaged_section, Group, Snapshot, SnapshotView,
};
use crate::gitko::status::{
    in_index, is_file_modified, is_in_worktree, modified, parse_file_state, path_in, path_of,
    state_of, FileState,
};
use crate::gitko::{
    heading, heading_line, heading_part, push_plain, texts_of, Command, CommandView, Overlay,
    OverlayView, Request, RequestView,
};
use crate::render::component::{asks, reloads, stays, Component, Reaction, ReactionView};
use crate::render::key_handlers::KeyHandlers;
use crate::render::line::{coloured, unstyled, Color, Line, Part};
use crate::render::search::{register_search_handlers, search_keys, SearchableComponent};
use crate::render::window::{rows_of, ScreenSize, Window, WindowView};
use crate::render::Point;
use crate::text::{decimal_text, same_text};
use vstd::prelude::*;

verus! {

/// The status screen.
pub struct MainWindow {
    term: String,
    snapshot: Snapshot,
}

/// The handlers of the status screen.
#[derive(Clone, Copy, PartialEq, Eq, Debug, Structural)]
pub enum MainAction {
    DiffFile,
    OpenBranchWindow,
    GitCheckoutFile,
    DeleteUntrackedFile,
    OpenLogWindow,
    OpenInFileManager,
    GitAddFile,
    GitUnstageFile,
    OpenCommandWindow,
    GitCommitOptions,
    GitPushOptions,
    Refresh,
    Search,
    NextResult,
    PreviousResult,
}

/// The question to confirm before the file `file` is removed.
pub open spec fn delete_file_question(file: Seq<char>) -> Seq<char> {
    "Are you sure you want to delete file '"@ + file + "'? y/n"@
}

/// The question to confirm before the changes to the file `file` are given up.
pub open spec fn checkout_file_question(file: Seq<char>) -> Seq<char> {
    "Are you sure you want to checkout file '"@ + file + "'? y/n"@
}

/// The request to show `screen` on the whole terminal.
pub open spec fn on_whole_terminal(screen: OverlayView) -> RequestView {
    RequestView::Show {
        screen,
        size: ScreenSize { lines: 0, cols: 0 },
        position: Point { x: 0, y: 0 },
    }
}

/// The request to show `screen` on the last two rows of `window`.
pub open spec fn on_last_rows(screen: OverlayView, window: WindowView) -> RequestView {
    RequestView::Show {
        screen,
        size: ScreenSize { lines: 2, cols: window.size.cols },
        position: Point { x: 0, y: (window.size.lines - 2) as i32 },
    }
}

/// The request to confirm `message` on the last row of `window` and then to
/// make the change `command`.
pub open spec fn on_last_row(message: Seq<char>, command: CommandView, window: WindowView)
    -> RequestView {
    RequestView::Confirm {
        message,
        command,
        size: ScreenSize { lines: 1, cols: 0 },
        position: Point { x: 0, y: (window.size.lines - 1) as i32 },
    }
}

/// A row that is too short to hold two columns of state, a blank and a path
/// is not about a path.
pub open spec fn is_entry(line: Seq<char>) -> bool {
    line.len() >= 3
}

/// What "show the changes" answers in `window`: on a row that is not about a
/// path, or whose state is not known, nothing; otherwise the changes to the
/// path, in a window of this window's size.
pub open spec fn file_diff(window: WindowView) -> ReactionView<RequestView> {
    let line = window.cursor_text();
    if !is_entry(line) || state_of(line) == FileState::Unknown {
        stays()
    } else {
        asks(
            RequestView::Show {
                screen: OverlayView::Diff { path: path_of(line), state: state_of(line) },
                size: window.size,
                position: Point { x: 0, y: 0 },
            },
            false,
        )
    }
}

/// What "open in the file manager" answers on the row `line`: on a row that is
/// not about a path, nothing; otherwise the request to show the path's
/// directory.
pub open spec fn file_manager(line: Seq<char>) -> ReactionView<RequestView> {
    if !is_entry(line) {
        stays()
    } else {
        asks(RequestView::Run(CommandView::Browse(path_of(line))), false)
    }
}

/// What "delete" answers in `window`: on a row that is not about a path,
/// nothing; on the row of a path that is not known to the repository, the
/// question, the removal if it is confirmed, and the status anew; on any other
/// row, the status anew.
pub open spec fn untracked_deletion(window: WindowView) -> ReactionView<RequestView> {
    let line = window.cursor_text();
    if !is_entry(line) {
        stays()
    } else if state_of(line) == FileState::Untracked {
        asks(
            on_last_row(
                delete_file_question(path_of(line)),
                CommandView::RemoveFile(path_of(line)),
                window,
            ),
            true,
        )
    } else {
        reloads()
    }
}

/// What "check out" answers in `window`: on a row that is not about a path,
/// nothing; on the row of a path that is changed in the working tree, the
/// question, the checkout if it is confirmed, and the status anew; on any
/// other row, the status anew.
pub open spec fn file_checkout(window: WindowView) -> ReactionView<RequestView> {
    let line = window.cursor_text();
    if !is_entry(line) {
        stays()
    } else if state_of(line) == FileState::Modified {
        asks(
            on_last_row(
                checkout_file_question(path_of(line)),
                CommandView::CheckoutFile(path_of(line)),
                window,
            ),
            true,
        )
    } else {
        reloads()
    }
}

/// What "stage" answers on the row `line`: on a row that is not about a path,
/// nothing; where the working tree has something to stage, the staging and the
/// status anew; otherwise the status anew.
pub open spec fn file_addition(line: Seq<char>) -> ReactionView<RequestView> {
    if !is_entry(line) {
        stays()
    } else if modified(line) {
        asks(RequestView::Run(CommandView::AddFile(path_of(line))), true)
    } else {
        reloads()
    }
}

/// What "unstage" answers on the row `line`: on a row that is not about a
/// path, nothing; where the index has a change of the path, the unstaging and
/// the status anew; otherwise the status anew.
pub open spec fn file_unstaging(line: Seq<char>) -> ReactionView<RequestView> {
    if !is_entry(line) {
        stays()
    } else if in_index(line) {
        asks(RequestView::Run(CommandView::UnstageFile(path_of(line))), true)
    } else {
        reloads()
    }
}

/// The row that gives a count in its title.
fn counted_line(title: &str, count: usize) -> (line: Line)
    ensures
        line@ == counted(title@, count as nat),
{
    let mut text = title.to_owned();
    let digits = decimal_text(count);
    text.append(digits.as_str());
    text.append(")");
    heading_line(text.as_str())
}

/// The row with a title, a name in `color` on black, a blank and a summary.
fn branch_line(title: &str, name: &str, color: Color, summary: &str) -> (line: Line)
    ensures
        line@ == seq![
            heading(title@),
            coloured(name@, color, Color::Rgb(0, 0, 0)),
            unstyled(" "@),
            unstyled(summary@),
        ],
{
    let mut parts: Vec<Part> = Vec::new();
    parts.push(heading_part(title));
    parts.push(Part::painted(name, color, Color::Rgb(0, 0, 0)));
    parts.push(Part::plain(" "));
    parts.push(Part::plain(summary));
    let line = Line::new(parts);
    assert(line@ =~= seq![
        heading(title@),
        coloured(name@, color, Color::Rgb(0, 0, 0)),
        unstyled(" "@),
        unstyled(summary@),
    ]);
    line
}

/// Adds `line` to `rows`.
fn push_row(rows: &mut Vec<Line>, line: Line)
    ensures
        rows_of(final(rows)@) == rows_of(old(rows)@) + seq![line@],
{
    rows.push(line);
    assert(rows_of(rows@) =~= rows_of(old(rows)@) + seq![line@]);
}

/// Adds to `rows` the top of the screen.
fn push_top(rows: &mut Vec<Line>, s: &Snapshot)
    ensures
        rows_of(final(rows)@) == rows_of(old(rows)@) + top_rows(s@),
{
    push_row(
        rows,
        branch_line(
            "Head:",
            s.head_branch.as_str(),
            Color::Rgb(0, 255, 255),
            s.last_commit.as_str(),
        ),
    );
    if !same_text(s.origin_hash.as_str(), s.local_hash.as_str()) {
        push_row(
            rows,
            branch_line(
                "Origin ",
                s.origin_head_branch.as_str(),
                Color::Rgb(255, 0, 0),
                s.last_origin_commit.as_str(),
            ),
        );
    }
    push_row(rows, Line::empty());
    assert(rows_of(rows@) =~= rows_of(old(rows)@) + top_rows(s@));
}

/// Adds to `rows` a section that is left out when it is empty.
fn push_section(rows: &mut Vec<Line>, title: &str, lines: &Vec<String>)
    ensures
        rows_of(final(rows)@) == rows_of(old(rows)@) + section(title@, texts_of(lines@)),
{
    if lines.len() > 0 {
        push_row(rows, counted_line(title, lines.len()));
        push_plain(rows, lines);
        push_row(rows, Line::empty());
    }
    assert(rows_of(rows@) =~= rows_of(old(rows)@) + section(title@, texts_of(lines@)));
}

/// Adds to `rows` the section of the paths that are missing.
fn push_deleted(rows: &mut Vec<Line>, lines: &Vec<String>)
    ensures
        rows_of(final(rows)@) == rows_of(old(rows)@) + deleted_section(texts_of(lines@)),
{
    if lines.len() > 0 {
        push_row(rows, heading_line("Deleted files:"));
        push_plain(rows, lines);
        push_row(rows, Line::empty());
    }
    assert(rows_of(rows@) =~= rows_of(old(rows)@) + deleted_section(texts_of(lines@)));
}

/// Adds to `rows` the section of the paths that are changed.
fn push_unstaged(rows: &mut Vec<Line>, lines: &Vec<String>)
    ensures
        rows_of(final(rows)@) == rows_of(old(rows)@) + unstaged_section(texts_of(lines@)),
{
    push_row(rows, counted_line("Modified files: (", lines.len()));
    if lines.len() > 0 {
        push_plain(rows, lines);
        push_row(rows, Line::empty());
    }
    push_row(rows, Line::empty());
    assert(rows_of(rows@) =~= rows_of(old(rows)@) + unstaged_section(texts_of(lines@)));
}

/// Adds to `rows` the section of the paths with a change in the index.
fn push_staged(rows: &mut Vec<Line>, lines: &Vec<String>)
    ensures
        rows_of(final(rows)@) == rows_of(old(rows)@) + staged_section(texts_of(lines@)),
{
    if lines.len() > 0 {
        push_row(rows, counted_line("Staged files: (", lines.len()));
        push_plain(rows, lines);
    }
    assert(rows_of(rows@) =~= rows_of(old(rows)@) + staged_section(texts_of(lines@)));
}

impl MainWindow {
    /// The status screen, with no search term and nothing to show yet.
    pub fn new() -> (screen: MainWindow)
        ensures
            screen.kept_term() == Seq::<char>::empty(),
            screen.shown() == nothing(),
    {
        let snapshot = Snapshot {
            status: Vec::new(),
            probes: Vec::new(),
            head_branch: String::new(),
            last_commit: String::new(),
            origin_head_branch: String::new(),
            last_origin_commit: String::new(),
            local_hash: String::new(),
            origin_hash: String::new(),
        };
        assert(snapshot@.status =~= Seq::<Seq<char>>::empty());
        assert(snapshot@.probes =~= Seq::empty());
        MainWindow { term: String::new(), snapshot }
    }

    /// What the screen shows.
    pub closed spec fn shown(&self) -> SnapshotView {
        self.snapshot@
    }

    /// The term that the screen searches for.
    pub closed spec fn kept_term(&self) -> Seq<char> {
        self.term@
    }

    /// `self` is `other` but for the search term, which is `term`.
    pub open spec fn is_with_term(&self, other: &Self, term: Seq<char>) -> bool {
        self.shown() == other.shown() && self.kept_term() == term
    }

    /// Asks for the changes to the path on the cursor's row.
    pub fn diff_file(&mut self, window: &mut Window) -> (reaction: Reaction<Request>)
        ensures
            reaction@ == file_diff(old(window)@),
            *final(self) == *old(self),
            final(window)@ == old(window)@,
    {
        let line = window.get_cursor_line();
        if line.as_str().unicode_len() < 3 {
            return Reaction::stay();
        }
        let state = parse_file_state(line.as_str());
        if state == FileState::Unknown {
            return Reaction::stay();
        }
        let size = ScreenSize { lines: window.height(), cols: window.width() };
        Reaction::ask(
            Request::Show {
                screen: Overlay::Diff { path: path_in(line.as_str()), state },
                size,
                position: Point { x: 0, y: 0 },
            },
            false,
        )
    }

    /// Asks for the list of branches, and for the status anew after it.
    pub fn open_branch_window(&mut self, window: &mut Window) -> (reaction: Reaction<Request>)
        ensures
            reaction@ == asks(on_whole_terminal(OverlayView::Branches), true),
            *final(self) == *old(self),
            final(window)@ == old(window)@,
    {
        Reaction::ask(
            Request::Show {
                screen: Overlay::Branches,
                size: ScreenSize::max(),
                position: Point { x: 0, y: 0 },
            },
            true,
        )
    }

    /// Asks for the commit log, and for the status anew after it.
    pub fn open_log_window(&mut self, window: &mut Window) -> (reaction: Reaction<Request>)
        ensures
            reaction@ == asks(on_whole_terminal(OverlayView::Log), true),
            *final(self) == *old(self),
            final(window)@ == old(window)@,
    {
        Reaction::ask(
            Request::Show {
                screen: Overlay::Log,
                size: ScreenSize::max(),
                position: Point { x: 0, y: 0 },
            },
            true,
        )
    }

    /// The request to show `screen` on the last two rows of `window`, and for
    /// the status anew after it.
    fn open_below(window: &Window, screen: Overlay) -> (reaction: Reaction<Request>)
        ensures
            reaction@ == asks(on_last_rows(screen@, window@), true),
    {
        let size = ScreenSize { lines: 2, cols: window.width() };
        let position = Point { x: 0, y: window.height() - 2 };
        Reaction::ask(Request::Show { screen, size, position }, true)
    }

    /// Asks for the command line, and for the status anew after it.
    pub fn open_command_window(&mut self, window: &mut Window) -> (reaction: Reaction<Request>)
        ensures
            reaction@ == asks(on_last_rows(OverlayView::CommandLine, old(window)@), true),
            *final(self) == *old(self),
            final(window)@ == old(window)@,
    {
        Self::open_below(window, Overlay::CommandLine)
    }

    /// Asks for the path on the cursor's row to be shown in the file manager.
    pub fn open_in_file_manager(&mut self, window: &mut Window) -> (reaction: Reaction<Request>)
        ensures
            reaction@ == file_manager(old(window)@.cursor_text()),
            *final(self) == *old(self),
            final(window)@ == old(window)@,
    {
        let line = window.get_cursor_line();
        if line.as_str().unicode_len() < 3 {
            return Reaction::stay();
        }
        Reaction::ask(Request::Run(Command::Browse(path_in(line.as_str()))), false)
    }

    /// The request to confirm a change to the file `file`: the question is
    /// `before`, the file's name and `'? y/n`.
    fn confirm(window: &Window, before: &str, file: &str, command: Command) -> (reaction:
        Reaction<Request>)
        ensures
            reaction@ == asks(
                on_last_row(before@ + file@ + "'? y/n"@, command@, window@),
                true,
            ),
    {
        let mut message = before.to_owned();
        message.append(file);
        message.append("'? y/n");
        let position = Point { x: 0, y: window.height() - 1 };
        Reaction::ask(
            Request::Confirm {
                message,
                command,
                size: ScreenSize { lines: 1, cols: 0 },
                position,
            },
            true,
        )
    }

    /// Asks to confirm the removal of the file on the cursor's row, if the
    /// repository does not know it.
    pub fn delete_untracked_file(&mut self, window: &mut Window) -> (reaction: Reaction<Request>)
        ensures
            reaction@ == untracked_deletion(old(window)@),
            *final(self) == *old(self),
            final(window)@ == old(window)@,
    {
        let line = window.get_cursor_line();
        if line.as_str().unicode_len() < 3 {
            return Reaction::stay();
        }
        if parse_file_state(line.as_str()) == FileState::Untracked {
            let file = path_in(line.as_str());
            let command = Command::RemoveFile(file.clone());
            Self::confirm(window, "Are you sure you want to delete file '", file.as_str(), command)
        } else {
            Reaction::reload()
        }
    }

    /// Asks to confirm the checkout of the file on the cursor's row, if it is
    /// changed in the working tree.
    pub fn git_checkout_file(&mut self, window: &mut Window) -> (reaction: Reaction<Request>)
        ensures
            reaction@ == file_checkout(old(window)@),
            *final(self) == *old(self),
            final(window)@ == old(window)@,
    {
        let line = window.get_cursor_line();
        if line.as_str().unicode_len() < 3 {
            return Reaction::stay();
        }
        if parse_file_state(line.as_str()) == FileState::Modified {
            let file = path_in(line.as_str());
            let command = Command::CheckoutFile(file.clone());
            Self::confirm(
                window,
                "Are you sure you want to checkout file '",
                file.as_str(),
                command,
            )
        } else {
            Reaction::reload()
        }
    }

    /// Asks for the file on the cursor's row to be staged, if the working tree
    /// has something of it to stage.
    pub fn git_add_file(&mut self, window: &mut Window) -> (reaction: Reaction<Request>)
        ensures
            reaction@ == file_addition(old(window)@.cursor_text()),
            *final(self) == *old(self),
            final(window)@ == old(window)@,
    {
        let line = window.get_cursor_line();
        if line.as_str().unicode_len() < 3 {
            return Reaction::stay();
        }
        if is_file_modified(line.as_str()) {
            Reaction::ask(Request::Run(Command::AddFile(path_in(line.as_str()))), true)
        } else {
            Reaction::reload()
        }
    }

    /// Asks for the file on the cursor's row to be taken out of the index, if
    /// the index has a change of it.
    pub fn git_unstage_file(&mut self, window: &mut Window) -> (reaction: Reaction<Request>)
        ensures
            reaction@ == file_unstaging(old(window)@.cursor_text()),
            *final(self) == *old(self),
            final(window)@ == old(window)@,
    {
        let line = window.get_cursor_line();
        if line.as_str().unicode_len() < 3 {
            return Reaction::stay();
        }
        if is_in_worktree(line.as_str()) {
            Reaction::ask(Request::Run(Command::UnstageFile(path_in(line.as_str()))), true)
        } else {
            Reaction::reload()
        }
    }

    /// Asks for the choices for a commit, and for the status anew after them.
    pub fn git_commit_options(&mut self, window: &mut Window) -> (reaction: Reaction<Request>)
        ensures
            reaction@ == asks(on_last_rows(OverlayView::CommitOptions, old(window)@), true),
            *final(self) == *old(self),
            final(window)@ == old(window)@,
    {
        Self::open_below(window, Overlay::CommitOptions)
    }

    /// Asks for the choices for a push, and for the status anew after them.
    pub fn git_push_options(&mut self, window: &mut Window) -> (reaction: Reaction<Request>)
        ensures
            reaction@ == asks(on_last_rows(OverlayView::PushOptions, old(window)@), true),
            *final(self) == *old(self),
            final(window)@ == old(window)@,
    {
        Self::open_below(window, Overlay::PushOptions)
    }

    /// Asks for the status anew.
    pub fn refresh(&mut self, window: &mut Window) -> (reaction: Reaction<Request>)
        ensures
            reaction@ == reloads::<RequestView>(),
            *final(self) == *old(self),
            final(window)@ == old(window)@,
    {
        Reaction::reload()
    }

    /// Asks for a search term. The host hands what the user enters to the
    /// session, which keeps it and goes to the next row that holds it.
    pub fn search(&mut self, window: &mut Window) -> (reaction: Reaction<Request>)
        ensures
            reaction@ == search_prompt(old(window)@),
            *final(self) == *old(self),
            final(window)@ == old(window)@,
    {
        let size = ScreenSize { lines: 2, cols: window.width() };
        let position = Point { x: 0, y: window.height() - 2 };
        Reaction::ask(Request::AskSearchTerm { size, position }, false)
    }

    /// The rows of the screen.
    pub fn rows(&self) -> (rows: Vec<Line>)
        ensures
            rows_of(rows@) == status_rows(self.shown()),
    {
        let s = &self.snapshot;
        let added = collect_new(&s.status, &s.probes, false);
        let added_modified = collect_new(&s.status, &s.probes, true);
        let deleted = select(&s.status, Group::Deleted);
        let unstaged = select(&s.status, Group::Unstaged);
        let staged = select(&s.status, Group::Staged);
        proof {
            let status = texts_of(s.status@);
            assert(status.filter(|line: Seq<char>| Group::Deleted.holds(line)) == status.filter(
                |line: Seq<char>| is_deleted(line),
            )) by {
                assert((|line: Seq<char>| Group::Deleted.holds(line)) =~= (|line: Seq<char>|
                    is_deleted(line)));
            }
            assert(status.filter(|line: Seq<char>| Group::Unstaged.holds(line)) == status.filter(
                |line: Seq<char>| is_unstaged(line),
            )) by {
                assert((|line: Seq<char>| Group::Unstaged.holds(line)) =~= (|line: Seq<char>|
                    is_unstaged(line)));
            }
            assert(status.filter(|line: Seq<char>| Group::Staged.holds(line)) == status.filter(
                |line: Seq<char>| is_staged(line),
            )) by {
                assert((|line: Seq<char>| Group::Staged.holds(line)) =~= (|line: Seq<char>|
                    is_staged(line)));
            }
        }

        let mut status: Vec<Line> = Vec::new();
        assert(rows_of(status@) =~= Seq::empty());
        push_top(&mut status, s);
        push_section(&mut status, "Untracked files: (", &added);
        push_section(&mut status, "Untracked (modified) files: (", &added_modified);
        push_deleted(&mut status, &deleted);
        push_unstaged(&mut status, &unstaged);
        push_staged(&mut status, &staged);
        assert(rows_of(status@) =~= status_rows(s@));
        status
    }
}

impl Component for MainWindow {
    type Action = MainAction;

    type Request = Request;

    type Source = Snapshot;

    open spec fn loaded(pre: &Self, source: &Snapshot, post: &Self) -> bool {
        post.shown() == source@ && post.kept_term() == pre.kept_term()
    }

    /// The window shows the status.
    open spec fn started(pre: &Self, window: WindowView, post: &Self, shown: WindowView) -> bool {
        *post == *pre && shown == window.with_lines(status_rows(pre.shown()))
    }

    open spec fn exited(pre: &Self, window: WindowView, post: &Self, shown: WindowView) -> bool {
        *post == *pre && shown == window
    }

    /// The search keys, and over them the screen's own: a key that both bind
    /// calls the screen's handler.
    open spec fn bindings(&self) -> Map<i32, MainAction> {
        search_keys(
            MainAction::Search,
            MainAction::NextResult,
            MainAction::PreviousResult,
        ).union_prefer_right(
            map![
                KEY_LF => MainAction::DiffFile,
                KEY_B_LOWER => MainAction::OpenBranchWindow,
                KEY_C_LOWER => MainAction::GitCheckoutFile,
                KEY_D_LOWER => MainAction::DeleteUntrackedFile,
                KEY_L_LOWER => MainAction::OpenLogWindow,
                KEY_O_UPPER => MainAction::OpenInFileManager,
                KEY_T_LOWER => MainAction::GitAddFile,
                KEY_U_LOWER => MainAction::GitUnstageFile,
                KEY_COLON => MainAction::OpenCommandWindow,
                KEY_C_UPPER => MainAction::GitCommitOptions,
                KEY_P_UPPER => MainAction::GitPushOptions,
                KEY_R_UPPER => MainAction::Refresh,
            ],
        )
    }

    open spec fn handled(
        pre: &Self,
        window: WindowView,
        action: MainAction,
        post: &Self,
        shown: WindowView,
        reaction: &Reaction<Request>,
    ) -> bool {
        &&& *post == *pre
        &&& match action {
            MainAction::NextResult => shown == window.after_next(pre.kept_term()) && reaction@
                == stays::<RequestView>(),
            MainAction::PreviousResult => shown == window.after_prev(pre.kept_term())
                && reaction@ == stays::<RequestView>(),
            _ => shown == window && reaction@ == match action {
                MainAction::DiffFile => file_diff(window),
                MainAction::OpenBranchWindow => asks(
                    on_whole_terminal(OverlayView::Branches),
                    true,
                ),
                MainAction::GitCheckoutFile => file_checkout(window),
                MainAction::DeleteUntrackedFile => untracked_deletion(window),
                MainAction::OpenLogWindow => asks(on_whole_terminal(OverlayView::Log), true),
                MainAction::OpenInFileManager => file_manager(window.cursor_text()),
                MainAction::GitAddFile => file_addition(window.cursor_text()),
                MainAction::GitUnstageFile => file_unstaging(window.cursor_text()),
                MainAction::OpenCommandWindow => asks(
                    on_last_rows(OverlayView::CommandLine, window),
                    true,
                ),
                MainAction::GitCommitOptions => asks(
                    on_last_rows(OverlayView::CommitOptions, window),
                    true,
                ),
                MainAction::GitPushOptions => asks(
                    on_last_rows(OverlayView::PushOptions, window),
                    true,
                ),
                MainAction::Refresh => reloads(),
                _ => search_prompt(window),
            },
        }
    }

    fn load(&mut self, source: Snapshot) {
        self.snapshot = source;
    }

    fn on_start(&mut self, window: &mut Window) {
        window.set_lines(self.rows());
    }

    fn on_exit(&mut self, window: &mut Window) {
    }

    fn register_handlers(&self, handlers: &mut KeyHandlers<MainAction>) {
        register_search_handlers(
            handlers,
            MainAction::Search,
            MainAction::NextResult,
            MainAction::PreviousResult,
        );
        handlers.insert(KEY_LF, MainAction::DiffFile);
        handlers.insert(KEY_B_LOWER, MainAction::OpenBranchWindow);
        handlers.insert(KEY_C_LOWER, MainAction::GitCheckoutFile);
        handlers.insert(KEY_D_LOWER, MainAction::DeleteUntrackedFile);
        handlers.insert(KEY_L_LOWER, MainAction::OpenLogWindow);
        handlers.insert(KEY_O_UPPER, MainAction::OpenInFileManager);
        handlers.insert(KEY_T_LOWER, MainAction::GitAddFile);
        handlers.insert(KEY_U_LOWER, MainAction::GitUnstageFile);
        handlers.insert(KEY_COLON, MainAction::OpenCommandWindow);
        handlers.insert(KEY_C_UPPER, MainAction::GitCommitOptions);
        handlers.insert(KEY_P_UPPER, MainAction::GitPushOptions);
        handlers.insert(KEY_R_UPPER, MainAction::Refresh);
        assert(handlers@ =~= old(handlers)@.union_prefer_right(self.bindings()));
    }

    fn handle(&mut self, action: MainAction, window: &mut Window) -> (reaction: Reaction<
        Request,
    >) {
        match action {
            MainAction::DiffFile => self.diff_file(window),
            MainAction::OpenBranchWindow => self.open_branch_window(window),
            MainAction::GitCheckoutFile => self.git_checkout_file(window),
            MainAction::DeleteUntrackedFile => self.delete_untracked_file(window),
            MainAction::OpenLogWindow => self.open_log_window(window),
            MainAction::OpenInFileManager => self.open_in_file_manager(window),
            MainAction::GitAddFile => self.git_add_file(window),
            MainAction::GitUnstageFile => self.git_unstage_file(window),
            MainAction::OpenCommandWindow => self.open_command_window(window),
            MainAction::GitCommitOptions => self.git_commit_options(window),
            MainAction::GitPushOptions => self.git_push_options(window),
            MainAction::Refresh => self.refresh(window),
            MainAction::Search => self.search(window),
            MainAction::NextResult => {
                window.move_next(self.term.as_str());
                Reaction::stay()
            },
            MainAction::PreviousResult => {
                window.move_prev(self.term.as_str());
                Reaction::stay()
            },
        }
    }
}

impl SearchableComponent for MainWindow {
    open spec fn search_term(&self) -> Seq<char> {
        self.kept_term()
    }

    open spec fn with_term(pre: &Self, term: Seq<char>, post: &Self) -> bool {
        post.is_with_term(pre, term)
    }

    fn term(&self) -> (term: String) {
        self.term.clone()
    }

    fn set_term(&mut self, term: String) {
        self.term = term;
    }
}

} // verus!
