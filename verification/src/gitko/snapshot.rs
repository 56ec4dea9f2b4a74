//! What the status screen shows, as the host fetched it, and the rows that the
//! screen makes of it.

use crate::gitko::{heading, plain_rows, texts_of};
use crate::render::line::{coloured, unstyled, Color, PartView};
use crate::text::{chars_of, decimal, same_text, skip_chars, starts_with, tail};
use vstd::prelude::*;

verus! {

/// What the host found at a path of the working tree.
#[derive(Clone, Debug, PartialEq, Eq)]
pub enum PathKind {
    /// A file.
    File,
    /// A directory, with the paths of its entries.
    Directory(Vec<String>),
    /// Nothing that can be shown.
    Other,
}

/// What a path kind is.
pub enum PathKindView {
    File,
    Directory(Seq<Seq<char>>),
    Other,
}

impl View for PathKind {
    type V = PathKindView;

    open spec fn view(&self) -> PathKindView {
        match self {
            PathKind::File => PathKindView::File,
            PathKind::Directory(entries) => PathKindView::Directory(texts_of(entries@)),
            PathKind::Other => PathKindView::Other,
        }
    }
}

/// A path of the working tree and what the host found there.
#[derive(Clone, Debug, PartialEq, Eq)]
pub struct Probe {
    pub path: String,
    pub kind: PathKind,
}

/// What a probe is.
pub struct ProbeView {
    pub path: Seq<char>,
    pub kind: PathKindView,
}

impl View for Probe {
    type V = ProbeView;

    open spec fn view(&self) -> ProbeView {
        ProbeView { path: self.path@, kind: self.kind@ }
    }
}

/// The state of the repository and the working tree, as the host fetched it.
#[derive(Clone, Debug, PartialEq, Eq)]
pub struct Snapshot {
    /// The short status, one line for each path.
    pub status: Vec<String>,
    /// What the host found at the paths that `untracked_paths` names.
    pub probes: Vec<Probe>,
    /// The name of the branch that is checked out.
    pub head_branch: String,
    /// The summary of its last commit.
    pub last_commit: String,
    /// The name of the branch that it follows.
    pub origin_head_branch: String,
    /// The summary of that branch's last commit.
    pub last_origin_commit: String,
    /// The hash of the last commit of the branch that is checked out.
    pub local_hash: String,
    /// The hash of the last commit of the branch that it follows.
    pub origin_hash: String,
}

/// What a snapshot is.
pub struct SnapshotView {
    pub status: Seq<Seq<char>>,
    pub probes: Seq<ProbeView>,
    pub head_branch: Seq<char>,
    pub last_commit: Seq<char>,
    pub origin_head_branch: Seq<char>,
    pub last_origin_commit: Seq<char>,
    pub local_hash: Seq<char>,
    pub origin_hash: Seq<char>,
}

/// The snapshot of which nothing is known yet: no line, no probe, and every
/// name, summary and hash empty.
pub open spec fn nothing() -> SnapshotView {
    SnapshotView {
        status: Seq::empty(),
        probes: Seq::empty(),
        head_branch: Seq::empty(),
        last_commit: Seq::empty(),
        origin_head_branch: Seq::empty(),
        last_origin_commit: Seq::empty(),
        local_hash: Seq::empty(),
        origin_hash: Seq::empty(),
    }
}

/// What `probes` are.
pub open spec fn probes_of(probes: Seq<Probe>) -> Seq<ProbeView> {
    probes.map_values(|probe: Probe| probe@)
}

impl View for Snapshot {
    type V = SnapshotView;

    open spec fn view(&self) -> SnapshotView {
        SnapshotView {
            status: texts_of(self.status@),
            probes: probes_of(self.probes@),
            head_branch: self.head_branch@,
            last_commit: self.last_commit@,
            origin_head_branch: self.origin_head_branch@,
            last_origin_commit: self.last_origin_commit@,
            local_hash: self.local_hash@,
            origin_hash: self.origin_hash@,
        }
    }
}

/// The line is about a path that is new to the repository: not known to it
/// (`??`), or added and changed since (`AM`).
pub open spec fn is_untracked(line: Seq<char>) -> bool {
    "??"@.is_prefix_of(line) || "AM"@.is_prefix_of(line)
}

/// The second column of the line is `M`.
pub open spec fn is_changed_since(line: Seq<char>) -> bool {
    line.len() > 1 && line[1] == 'M'
}

/// The line is about a path that is missing from the working tree.
pub open spec fn is_deleted(line: Seq<char>) -> bool {
    " D"@.is_prefix_of(line)
}

/// The line is about a path that is changed in the working tree.
pub open spec fn is_unstaged(line: Seq<char>) -> bool {
    " M"@.is_prefix_of(line) || "MM"@.is_prefix_of(line)
}

/// The line is about a path that has a change in the index.
pub open spec fn is_staged(line: Seq<char>) -> bool {
    line.len() > 0 && (line[0] == 'M' || line[0] == 'A' || line[0] == 'D')
}

/// What the first of `probes` for `path` found; `Other` where none is for it.
pub open spec fn kind_of(probes: Seq<ProbeView>, path: Seq<char>) -> PathKindView
    decreases probes.len(),
{
    if probes.len() == 0 {
        PathKindView::Other
    } else if probes.first().path == path {
        probes.first().kind
    } else {
        kind_of(probes.drop_first(), path)
    }
}

/// The lines that stand for the entries of a directory that is new.
pub open spec fn entry_lines(entries: Seq<Seq<char>>) -> Seq<Seq<char>> {
    entries.map_values(|entry: Seq<char>| "?? "@ + entry)
}

/// The lines that the status line `line` of a new path comes to: the line
/// itself for a file, one line for each of its entries for a directory, and
/// none where there is nothing to show.
pub open spec fn expansion(line: Seq<char>, probes: Seq<ProbeView>) -> Seq<Seq<char>> {
    match kind_of(probes, tail(line, 3)) {
        PathKindView::File => seq![line],
        PathKindView::Directory(entries) => entry_lines(entries),
        PathKindView::Other => Seq::empty(),
    }
}

/// The lines about new paths: of the lines of `status` that are about a new
/// path, and changed since or not as `changed` says, what each comes to, in
/// the order of `status`.
pub open spec fn new_paths(status: Seq<Seq<char>>, probes: Seq<ProbeView>, changed: bool) -> Seq<
    Seq<char>,
>
    decreases status.len(),
{
    if status.len() == 0 {
        Seq::empty()
    } else if is_untracked(status.last()) && is_changed_since(status.last()) == changed {
        new_paths(status.drop_last(), probes, changed) + expansion(status.last(), probes)
    } else {
        new_paths(status.drop_last(), probes, changed)
    }
}

/// The paths that the host is to look at before the status can be shown: for
/// each line of `status` that is about a new path, what follows the two
/// columns and the blank.
pub open spec fn paths_to_probe(status: Seq<Seq<char>>) -> Seq<Seq<char>> {
    status.filter(|line: Seq<char>| is_untracked(line)).map_values(
        |line: Seq<char>| tail(line, 3),
    )
}

/// The row without a fragment, which shows as a blank row.
pub open spec fn blank() -> Seq<PartView> {
    Seq::empty()
}

/// The title that gives a count: `title`, the count and a closing bracket.
pub open spec fn counted(title: Seq<char>, count: nat) -> Seq<PartView> {
    seq![heading(title + decimal(count) + ")"@)]
}

/// The first row: the branch that is checked out, in cyan, and its last commit.
pub open spec fn head_row(s: SnapshotView) -> Seq<PartView> {
    seq![
        heading("Head:"@),
        coloured(s.head_branch, Color::Rgb(0, 255, 255), Color::Rgb(0, 0, 0)),
        unstyled(" "@),
        unstyled(s.last_commit),
    ]
}

/// The row of the branch that is followed, in red, and its last commit.
pub open spec fn origin_row(s: SnapshotView) -> Seq<PartView> {
    seq![
        heading("Origin "@),
        coloured(s.origin_head_branch, Color::Rgb(255, 0, 0), Color::Rgb(0, 0, 0)),
        unstyled(" "@),
        unstyled(s.last_origin_commit),
    ]
}

/// The top of the screen: the row of the branch that is checked out, the row
/// of the branch that it follows where the two are not at the same commit,
/// and a blank row.
pub open spec fn top_rows(s: SnapshotView) -> Seq<Seq<PartView>> {
    seq![head_row(s)] + (if s.origin_hash != s.local_hash {
        seq![origin_row(s)]
    } else {
        Seq::empty()
    }) + seq![blank()]
}

/// A section that is left out when it is empty: the title with the count, the
/// lines, and a blank row.
pub open spec fn section(title: Seq<char>, lines: Seq<Seq<char>>) -> Seq<Seq<PartView>> {
    if lines.len() > 0 {
        seq![counted(title, lines.len())] + plain_rows(lines) + seq![blank()]
    } else {
        Seq::empty()
    }
}

/// The section of the paths that are missing: left out when empty, and with a
/// title that gives no count.
pub open spec fn deleted_section(lines: Seq<Seq<char>>) -> Seq<Seq<PartView>> {
    if lines.len() > 0 {
        seq![seq![heading("Deleted files:"@)]] + plain_rows(lines) + seq![blank()]
    } else {
        Seq::empty()
    }
}

/// The section of the paths that are changed: its title is always shown; the
/// lines and a blank row follow where there are lines; one more blank row ends
/// it.
pub open spec fn unstaged_section(lines: Seq<Seq<char>>) -> Seq<Seq<PartView>> {
    seq![counted("Modified files: ("@, lines.len())] + (if lines.len() > 0 {
        plain_rows(lines) + seq![blank()]
    } else {
        Seq::empty()
    }) + seq![blank()]
}

/// The section of the paths with a change in the index: left out when empty,
/// and not followed by a blank row.
pub open spec fn staged_section(lines: Seq<Seq<char>>) -> Seq<Seq<PartView>> {
    if lines.len() > 0 {
        seq![counted("Staged files: ("@, lines.len())] + plain_rows(lines)
    } else {
        Seq::empty()
    }
}

/// The rows of the status screen.
pub open spec fn status_rows(s: SnapshotView) -> Seq<Seq<PartView>> {
    top_rows(s) + section("Untracked files: ("@, new_paths(s.status, s.probes, false)) + section(
        "Untracked (modified) files: ("@,
        new_paths(s.status, s.probes, true),
    ) + deleted_section(s.status.filter(|line: Seq<char>| is_deleted(line))) + unstaged_section(
        s.status.filter(|line: Seq<char>| is_unstaged(line)),
    ) + staged_section(s.status.filter(|line: Seq<char>| is_staged(line)))
}

/// A kind of status line.
#[derive(Clone, Copy, PartialEq, Eq, Debug, Structural)]
pub enum Group {
    Untracked,
    Deleted,
    Unstaged,
    Staged,
}

impl Group {
    /// The line `line` is of this kind.
    pub open spec fn holds(self, line: Seq<char>) -> bool {
        match self {
            Group::Untracked => is_untracked(line),
            Group::Deleted => is_deleted(line),
            Group::Unstaged => is_unstaged(line),
            Group::Staged => is_staged(line),
        }
    }

    /// Whether the line `line` is of this kind.
    pub fn test(self, line: &str) -> (holds: bool)
        ensures
            holds == self.holds(line@),
    {
        match self {
            Group::Untracked => starts_with(line, "??") || starts_with(line, "AM"),
            Group::Deleted => starts_with(line, " D"),
            Group::Unstaged => starts_with(line, " M") || starts_with(line, "MM"),
            Group::Staged => {
                let chars = chars_of(line);
                chars.len() > 0 && (chars[0] == 'M' || chars[0] == 'A' || chars[0] == 'D')
            },
        }
    }
}

/// Whether the second column of `line` is `M`.
pub fn changed_since(line: &str) -> (changed: bool)
    ensures
        changed == is_changed_since(line@),
{
    let chars = chars_of(line);
    chars.len() > 1 && chars[1] == 'M'
}

/// The lines of `status` that are of the kind `group`, in their order.
pub fn select(status: &Vec<String>, group: Group) -> (lines: Vec<String>)
    ensures
        texts_of(lines@) == texts_of(status@).filter(|line: Seq<char>| group.holds(line)),
{
    let ghost keep = |line: Seq<char>| group.holds(line);
    let mut lines: Vec<String> = Vec::new();
    let mut i: usize = 0;
    assert(texts_of(status@.take(0)) =~= Seq::<Seq<char>>::empty());
    assert(texts_of(lines@) =~= Seq::<Seq<char>>::empty().filter(keep));
    while i < status.len()
        invariant
            i <= status.len(),
            keep == (|line: Seq<char>| group.holds(line)),
            texts_of(lines@) == texts_of(status@.take(i as int)).filter(keep),
        decreases status.len() - i,
    {
        let ghost before = lines@;
        let taken = group.test(status[i].as_str());
        if taken {
            lines.push(status[i].clone());
        }
        proof {
            let done = texts_of(status@.take(i as int));
            assert(texts_of(status@.take(i + 1)) =~= done.push(status@[i as int]@));
            done.lemma_filter_push(status@[i as int]@, keep);
            if taken {
                assert(texts_of(lines@) =~= texts_of(before).push(status@[i as int]@));
            }
        }
        i += 1;
    }
    assert(status@.take(i as int) =~= status@);
    lines
}

/// The paths that the host is to look at before the status can be shown.
pub fn untracked_paths(status: &Vec<String>) -> (paths: Vec<String>)
    ensures
        texts_of(paths@) == paths_to_probe(texts_of(status@)),
{
    let lines = select(status, Group::Untracked);
    let mut paths: Vec<String> = Vec::new();
    let mut i: usize = 0;
    while i < lines.len()
        invariant
            i <= lines.len(),
            paths@.len() == i,
            forall|j: int| 0 <= j < i ==> (#[trigger] paths@[j])@ == tail(lines@[j]@, 3),
        decreases lines.len() - i,
    {
        paths.push(skip_chars(lines[i].as_str(), 3));
        i += 1;
    }
    assert(texts_of(paths@) =~= texts_of(lines@).map_values(|line: Seq<char>| tail(line, 3)));
    assert(texts_of(status@).filter(|line: Seq<char>| Group::Untracked.holds(line)) =~= texts_of(
        status@,
    ).filter(|line: Seq<char>| is_untracked(line))) by {
        assert((|line: Seq<char>| Group::Untracked.holds(line)) =~= (|line: Seq<char>|
            is_untracked(line)));
    }
    paths
}

/// Adds to `lines` one line for each of the entries `entries` of a new
/// directory.
fn push_entries(lines: &mut Vec<String>, entries: &Vec<String>)
    ensures
        texts_of(final(lines)@) == texts_of(old(lines)@) + entry_lines(texts_of(entries@)),
{
    let mut k: usize = 0;
    assert(entry_lines(texts_of(entries@.take(0))) =~= Seq::<Seq<char>>::empty());
    assert(texts_of(lines@) =~= texts_of(old(lines)@) + Seq::<Seq<char>>::empty());
    while k < entries.len()
        invariant
            k <= entries.len(),
            texts_of(lines@) == texts_of(old(lines)@) + entry_lines(
                texts_of(entries@.take(k as int)),
            ),
        decreases entries.len() - k,
    {
        let ghost before = lines@;
        let mut shown = "?? ".to_owned();
        shown.append(entries[k].as_str());
        lines.push(shown);
        proof {
            let added = "?? "@ + entries@[k as int]@;
            assert(texts_of(lines@) =~= texts_of(before).push(added));
            assert(entry_lines(texts_of(entries@.take(k + 1))) =~= entry_lines(
                texts_of(entries@.take(k as int)),
            ).push(added));
        }
        k += 1;
    }
    assert(entries@.take(k as int) =~= entries@);
}

/// Adds to `lines` what the status line `line` of a new path comes to.
pub fn expand(lines: &mut Vec<String>, line: &str, probes: &Vec<Probe>)
    ensures
        texts_of(final(lines)@) == texts_of(old(lines)@) + expansion(line@, probes_of(probes@)),
{
    let path = skip_chars(line, 3);
    let mut j: usize = 0;
    assert(probes_of(probes@).skip(0) =~= probes_of(probes@));
    while j < probes.len()
        invariant
            j <= probes.len(),
            path@ == tail(line@, 3),
            lines@ == old(lines)@,
            kind_of(probes_of(probes@), path@) == kind_of(
                probes_of(probes@).skip(j as int),
                path@,
            ),
        decreases probes.len() - j,
    {
        let probe = &probes[j];
        proof {
            let rest = probes_of(probes@).skip(j as int);
            assert(rest.first() == probes@[j as int]@);
            assert(rest.drop_first() =~= probes_of(probes@).skip(j + 1));
        }
        if same_text(probe.path.as_str(), path.as_str()) {
            match &probe.kind {
                PathKind::File => {
                    lines.push(line.to_owned());
                    assert(texts_of(lines@) =~= texts_of(old(lines)@) + seq![line@]);
                },
                PathKind::Directory(entries) => {
                    push_entries(lines, entries);
                },
                PathKind::Other => {
                    assert(texts_of(lines@) =~= texts_of(old(lines)@) + Seq::<
                        Seq<char>,
                    >::empty());
                },
            }
            return ;
        }
        j += 1;
    }
    assert(texts_of(lines@) =~= texts_of(old(lines)@) + Seq::<Seq<char>>::empty());
}

/// The lines about new paths, changed since or not as `changed` says.
pub fn collect_new(status: &Vec<String>, probes: &Vec<Probe>, changed: bool) -> (lines: Vec<
    String,
>)
    ensures
        texts_of(lines@) == new_paths(texts_of(status@), probes_of(probes@), changed),
{
    let mut lines: Vec<String> = Vec::new();
    let mut i: usize = 0;
    assert(texts_of(status@.take(0)) =~= Seq::<Seq<char>>::empty());
    assert(texts_of(lines@) =~= Seq::<Seq<char>>::empty());
    while i < status.len()
        invariant
            i <= status.len(),
            texts_of(lines@) == new_paths(
                texts_of(status@.take(i as int)),
                probes_of(probes@),
                changed,
            ),
        decreases status.len() - i,
    {
        let line = status[i].as_str();
        proof {
            let upto = texts_of(status@.take(i + 1));
            assert(upto.drop_last() =~= texts_of(status@.take(i as int)));
            assert(upto.last() == status@[i as int]@);
        }
        if Group::Untracked.test(line) && changed_since(line) == changed {
            expand(&mut lines, line, probes);
        }
        i += 1;
    }
    assert(status@.take(i as int) =~= status@);
    lines
}

} // verus!
