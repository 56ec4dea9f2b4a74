//! Reading one line of the short status of a working tree: two columns of
//! state, a blank, and the path. The first column is the state of the path in
//! the index, the second its state in the working tree.

use crate::text::{chars_of, skip_chars, tail, trim, trimmed};
use vstd::prelude::*;

verus! {

/// The state of a path, as far as the status screen tells states apart.
#[derive(Clone, Copy, PartialEq, Eq, Debug, Structural)]
pub enum FileState {
    /// Not known to the repository (`??`).
    Untracked,
    /// Changed in the working tree (`M` in the second column).
    Modified,
    /// Missing from the working tree (`D` in the second column).
    Deleted,
    /// Changed in the index only (`M`, `A` or `D` in the first column, a blank
    /// in the second).
    Staged,
    /// None of these.
    Unknown,
}

/// The state that a status line reports.
pub open spec fn state_of(line: Seq<char>) -> FileState {
    if line.len() < 2 {
        FileState::Unknown
    } else if line[0] == '?' && line[1] == '?' {
        FileState::Untracked
    } else if line[1] == 'M' {
        FileState::Modified
    } else if line[1] == 'D' {
        FileState::Deleted
    } else if line[1] == ' ' && (line[0] == 'M' || line[0] == 'A' || line[0] == 'D') {
        FileState::Staged
    } else {
        FileState::Unknown
    }
}

/// The working tree has something of this path that the index has not.
pub open spec fn modified(line: Seq<char>) -> bool {
    state_of(line) == FileState::Untracked || state_of(line) == FileState::Modified || state_of(
        line,
    ) == FileState::Deleted
}

/// The index has a change of this path.
pub open spec fn in_index(line: Seq<char>) -> bool {
    line.len() >= 2 && (line[0] == 'M' || line[0] == 'A' || line[0] == 'D')
}

/// The path that a status line is about: what follows the two columns and the
/// blank, without white space at either end.
pub open spec fn path_of(line: Seq<char>) -> Seq<char> {
    trimmed(tail(line, 3))
}

/// The state that the status line `line` reports.
pub fn parse_file_state(line: &str) -> (state: FileState)
    ensures
        state == state_of(line@),
{
    let chars = chars_of(line);
    if chars.len() < 2 {
        FileState::Unknown
    } else if chars[0] == '?' && chars[1] == '?' {
        FileState::Untracked
    } else if chars[1] == 'M' {
        FileState::Modified
    } else if chars[1] == 'D' {
        FileState::Deleted
    } else if chars[1] == ' ' && (chars[0] == 'M' || chars[0] == 'A' || chars[0] == 'D') {
        FileState::Staged
    } else {
        FileState::Unknown
    }
}

/// Whether the working tree has something of the path of `line` that the index
/// has not, so that there is something to stage.
pub fn is_file_modified(line: &str) -> (changed: bool)
    ensures
        changed == modified(line@),
{
    match parse_file_state(line) {
        FileState::Untracked => true,
        FileState::Modified => true,
        FileState::Deleted => true,
        FileState::Staged => false,
        FileState::Unknown => false,
    }
}

/// Whether the index has a change of the path of `line`, so that there is
/// something to take out of it.
pub fn is_in_worktree(line: &str) -> (staged: bool)
    ensures
        staged == in_index(line@),
{
    let chars = chars_of(line);
    chars.len() >= 2 && (chars[0] == 'M' || chars[0] == 'A' || chars[0] == 'D')
}

/// The path that the status line `line` is about.
pub fn path_in(line: &str) -> (path: String)
    ensures
        path@ == path_of(line@),
{
    let rest = skip_chars(line, 3);
    trim(rest.as_str())
}

} // verus!
