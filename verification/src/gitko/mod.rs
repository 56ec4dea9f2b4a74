//! The screens: the status of the working tree, the branches, the log, the
//! changes of one commit, and the two that only show text.
//!
//! A screen's handlers decide; they do not act. What has to happen outside the
//! screen, a command on the repository or another screen on top of this one,
//! is handed to the host as a `Request`.

use crate::gitko::status::FileState;
use crate::render::line::{unstyled, Line, Part, PartView, Style};
use crate::render::window::{rows_of, ScreenSize};
use crate::render::Point;
use vstd::prelude::*;

pub mod branch_window;
pub mod commit_diff_window;
pub mod log_window;
pub mod main_window;
pub mod output_window;
pub mod snapshot;
pub mod status;
pub mod text_window;

verus! {

/// A change to the repository or the working tree, for the host to make.
#[derive(Clone, Debug, PartialEq, Eq)]
pub enum Command {
    /// Stage the file at this path.
    AddFile(String),
    /// Take the file at this path out of the index.
    UnstageFile(String),
    /// Give up the changes to the file at this path.
    CheckoutFile(String),
    /// Remove the file at this path from the working tree.
    RemoveFile(String),
    /// Switch to the branch of this name.
    CheckoutBranch(String),
    /// Delete the branch of this name.
    DeleteBranch(String),
    /// Show the directory that holds this path in the file manager, if the
    /// path exists.
    Browse(String),
}

/// What a command is.
pub enum CommandView {
    AddFile(Seq<char>),
    UnstageFile(Seq<char>),
    CheckoutFile(Seq<char>),
    RemoveFile(Seq<char>),
    CheckoutBranch(Seq<char>),
    DeleteBranch(Seq<char>),
    Browse(Seq<char>),
}

impl View for Command {
    type V = CommandView;

    open spec fn view(&self) -> CommandView {
        match self {
            Command::AddFile(path) => CommandView::AddFile(path@),
            Command::UnstageFile(path) => CommandView::UnstageFile(path@),
            Command::CheckoutFile(path) => CommandView::CheckoutFile(path@),
            Command::RemoveFile(path) => CommandView::RemoveFile(path@),
            Command::CheckoutBranch(name) => CommandView::CheckoutBranch(name@),
            Command::DeleteBranch(name) => CommandView::DeleteBranch(name@),
            Command::Browse(path) => CommandView::Browse(path@),
        }
    }
}

/// A screen to run on top of the one that asks for it.
#[derive(Clone, Debug, PartialEq, Eq)]
pub enum Overlay {
    /// The list of branches.
    Branches,
    /// The commit log.
    Log,
    /// The line on which a command is typed.
    CommandLine,
    /// The choices for a commit.
    CommitOptions,
    /// The choices for a push.
    PushOptions,
    /// The changes to the file at `path`, which is in the state `state`.
    Diff { path: String, state: FileState },
    /// The changes of the commit whose hash begins with `hash`.
    CommitDiff { hash: String },
}

/// What an overlay is.
pub enum OverlayView {
    Branches,
    Log,
    CommandLine,
    CommitOptions,
    PushOptions,
    Diff { path: Seq<char>, state: FileState },
    CommitDiff { hash: Seq<char> },
}

impl View for Overlay {
    type V = OverlayView;

    open spec fn view(&self) -> OverlayView {
        match self {
            Overlay::Branches => OverlayView::Branches,
            Overlay::Log => OverlayView::Log,
            Overlay::CommandLine => OverlayView::CommandLine,
            Overlay::CommitOptions => OverlayView::CommitOptions,
            Overlay::PushOptions => OverlayView::PushOptions,
            Overlay::Diff { path, state } => OverlayView::Diff { path: path@, state: *state },
            Overlay::CommitDiff { hash } => OverlayView::CommitDiff { hash: hash@ },
        }
    }
}

/// Work outside a screen that one of its handlers asks the host to do. Sizes
/// and positions are those of the window to open for it.
#[derive(Clone, Debug, PartialEq, Eq)]
pub enum Request {
    /// Make this change.
    Run(Command),
    /// Run this screen until it is left.
    Show { screen: Overlay, size: ScreenSize, position: Point },
    /// Show `message` and await `y` or `n`; on `y`, make the change `command`.
    Confirm { message: String, command: Command, size: ScreenSize, position: Point },
    /// Let the user enter a search term, and hand it to the session.
    AskSearchTerm { size: ScreenSize, position: Point },
    /// Show `label`, let the user enter a name below it, and create a branch
    /// of that name.
    AskBranchName {
        label: String,
        label_size: ScreenSize,
        label_position: Point,
        size: ScreenSize,
        position: Point,
    },
}

/// What a request is.
pub enum RequestView {
    Run(CommandView),
    Show { screen: OverlayView, size: ScreenSize, position: Point },
    Confirm { message: Seq<char>, command: CommandView, size: ScreenSize, position: Point },
    AskSearchTerm { size: ScreenSize, position: Point },
    AskBranchName {
        label: Seq<char>,
        label_size: ScreenSize,
        label_position: Point,
        size: ScreenSize,
        position: Point,
    },
}

impl View for Request {
    type V = RequestView;

    open spec fn view(&self) -> RequestView {
        match self {
            Request::Run(command) => RequestView::Run(command@),
            Request::Show { screen, size, position } => RequestView::Show {
                screen: screen@,
                size: *size,
                position: *position,
            },
            Request::Confirm { message, command, size, position } => RequestView::Confirm {
                message: message@,
                command: command@,
                size: *size,
                position: *position,
            },
            Request::AskSearchTerm { size, position } => RequestView::AskSearchTerm {
                size: *size,
                position: *position,
            },
            Request::AskBranchName {
                label,
                label_size,
                label_position,
                size,
                position,
            } => RequestView::AskBranchName {
                label: label@,
                label_size: *label_size,
                label_position: *label_position,
                size: *size,
                position: *position,
            },
        }
    }
}

/// The texts of `lines`.
pub open spec fn texts_of(lines: Seq<String>) -> Seq<Seq<char>> {
    lines.map_values(|line: String| line@)
}

/// One row for each of `texts`, with no colour and no attribute.
pub open spec fn plain_rows(texts: Seq<Seq<char>>) -> Seq<Seq<PartView>> {
    texts.map_values(|text: Seq<char>| seq![unstyled(text)])
}

/// The fragment that shows `text` bold and underlined, as the titles are.
pub open spec fn heading(text: Seq<char>) -> PartView {
    PartView { text, foreground: None, background: None, bold: true, underlined: true }
}

/// The fragment that shows `text` as a title.
pub fn heading_part(text: &str) -> (part: Part)
    ensures
        part@ == heading(text@),
{
    let styles = vec![Style::Bold, Style::Underlined];
    assert(styles@[0] == Style::Bold && styles@[1] == Style::Underlined);
    Part::new(text, Some(styles))
}

/// The row that shows `text` as a title.
pub fn heading_line(text: &str) -> (line: Line)
    ensures
        line@ == seq![heading(text@)],
{
    let styles = vec![Style::Bold, Style::Underlined];
    assert(styles@[0] == Style::Bold && styles@[1] == Style::Underlined);
    Line::from_str(text, Some(styles))
}

/// Adds to `rows` one row for each of `lines`, with no colour and no attribute.
pub fn push_plain(rows: &mut Vec<Line>, lines: &Vec<String>)
    ensures
        rows_of(final(rows)@) == rows_of(old(rows)@) + plain_rows(texts_of(lines@)),
{
    let mut i: usize = 0;
    while i < lines.len()
        invariant
            i <= lines.len(),
            rows_of(rows@) == rows_of(old(rows)@) + plain_rows(texts_of(lines@.take(i as int))),
        decreases lines.len() - i,
    {
        let ghost before = rows@;
        rows.push(Line::plain(lines[i].as_str()));
        proof {
            assert(lines@.take(i + 1) =~= lines@.take(i as int).push(lines@[i as int]));
            assert(rows_of(rows@) =~= rows_of(before).push(seq![unstyled(lines@[i as int]@)]));
            assert(plain_rows(texts_of(lines@.take(i + 1))) =~= plain_rows(
                texts_of(lines@.take(i as int)),
            ).push(seq![unstyled(lines@[i as int]@)]));
        }
        i += 1;
    }
    assert(lines@.take(i as int) =~= lines@);
}

/// One row for each of `lines`, with no colour and no attribute.
pub fn plain_lines(lines: &Vec<String>) -> (rows: Vec<Line>)
    ensures
        rows_of(rows@) == plain_rows(texts_of(lines@)),
{
    let mut rows: Vec<Line> = Vec::new();
    push_plain(&mut rows, lines);
    assert(rows_of(rows@) =~= plain_rows(texts_of(lines@)));
    rows
}

} // verus!
