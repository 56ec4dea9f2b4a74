use gitko::ascii_table::{
    KEY_B_LOWER, KEY_COLON, KEY_D_LOWER, KEY_EOT, KEY_FORWARD_SLASH, KEY_LF, KEY_NAK,
    KEY_N_LOWER, KEY_N_UPPER, KEY_R_UPPER,
};
use gitko::gitko::branch_window::{BranchAction, BranchWindow};
use gitko::gitko::commit_diff_window::{map_line, CommitDiffWindow, DiffAction};
use gitko::gitko::log_window::LogWindow;
use gitko::gitko::main_window::{MainAction, MainWindow};
use gitko::gitko::snapshot::{untracked_paths, PathKind, Probe, Snapshot};
use gitko::gitko::status::{is_file_modified, is_in_worktree, parse_file_state, path_in, FileState};
use gitko::gitko::{Command, Overlay, Request};
use gitko::render::component::{Component, Reaction};
use gitko::render::key_handlers::KeyHandlers;
use gitko::render::line::{Color, Line, Part, Style};
use gitko::render::palette;
use gitko::render::search::SearchableComponent;
use gitko::render::window::{ScreenSize, Window};
use gitko::render::Point;

fn window(height: i32) -> Window {
    Window::new(
        ScreenSize { lines: height, cols: 80 },
        Point { x: 0, y: 0 },
        ScreenSize { lines: 24, cols: 80 },
    )
    .unwrap()
}

fn strings(lines: &[&str]) -> Vec<String> {
    lines.iter().map(|l| l.to_string()).collect()
}

fn texts(window: &Window) -> Vec<String> {
    (0..window.len()).map(|i| window.line(i).text()).collect()
}

fn stay() -> Reaction<Request> {
    Reaction { proceed: true, request: None, refresh: false }
}

fn reload() -> Reaction<Request> {
    Reaction { proceed: true, request: None, refresh: true }
}

fn snapshot(status: &[&str]) -> Snapshot {
    Snapshot {
        status: strings(status),
        probes: vec![],
        head_branch: "main".to_string(),
        last_commit: "1a2b3c4 fix".to_string(),
        origin_head_branch: "origin/main".to_string(),
        last_origin_commit: "0f0f0f0 old".to_string(),
        local_hash: "1a2b3c4".to_string(),
        origin_hash: "1a2b3c4".to_string(),
    }
}

#[test]
fn palette_is_the_drivers() {
    assert_eq!(palette::black(), Color::Indexed(0));
    assert_eq!(palette::red(), Color::Indexed(1));
    assert_eq!(palette::green(), Color::Indexed(2));
    assert_eq!(palette::cyan(), Color::Indexed(6));
    assert_eq!(palette::GREEN, 2);
}

#[test]
fn diff_lines_are_coloured_by_their_first_characters() {
    let added = map_line("+new".to_string());
    assert_eq!(added, Line::new(vec![Part::painted("+new", Color::Indexed(2), Color::Indexed(0))]));
    let removed = map_line("-old".to_string());
    assert_eq!(removed.part(0).foreground(), Some(Color::Indexed(1)));
    assert_eq!(removed.part(0).background(), Some(Color::Indexed(0)));
    let hunk = map_line("@@ -1,2 +1,2 @@".to_string());
    assert_eq!(hunk.part(0).foreground(), Some(Color::Indexed(6)));
    assert_eq!(hunk.text(), "@@ -1,2 +1,2 @@");
    assert_eq!(map_line(" same".to_string()), Line::plain(" same"));
    assert_eq!(map_line("@ x".to_string()), Line::plain("@ x"));
    assert_eq!(map_line("".to_string()), Line::plain(""));
    assert_eq!(map_line("+++ b/file".to_string()).part(0).foreground(), Some(Color::Indexed(2)));
}

#[test]
fn status_lines_are_read_by_their_two_columns() {
    assert_eq!(parse_file_state("?? new.txt"), FileState::Untracked);
    assert_eq!(parse_file_state(" M a.txt"), FileState::Modified);
    assert_eq!(parse_file_state("MM a.txt"), FileState::Modified);
    assert_eq!(parse_file_state("AM a.txt"), FileState::Modified);
    assert_eq!(parse_file_state(" D a.txt"), FileState::Deleted);
    assert_eq!(parse_file_state("M  a.txt"), FileState::Staged);
    assert_eq!(parse_file_state("A  a.txt"), FileState::Staged);
    assert_eq!(parse_file_state("D  a.txt"), FileState::Staged);
    assert_eq!(parse_file_state("Head:main"), FileState::Unknown);
    assert_eq!(parse_file_state(""), FileState::Unknown);
    assert_eq!(parse_file_state("M"), FileState::Unknown);
    assert!(is_file_modified("?? a") && is_file_modified(" M a") && is_file_modified(" D a"));
    assert!(!is_file_modified("M  a") && !is_file_modified(""));
    assert!(is_in_worktree("M  a") && is_in_worktree("MM a") && is_in_worktree("A  a"));
    assert!(!is_in_worktree(" M a") && !is_in_worktree("?? a") && !is_in_worktree("M"));
    assert_eq!(path_in(" M  src/a b.rs "), "src/a b.rs");
    assert_eq!(path_in("??"), "");
}

#[test]
fn commit_screen_scrolls_and_jumps() {
    let lines: Vec<String> = (0..50).map(|i| format!("line {}", i)).collect();
    let mut screen = CommitDiffWindow::new("1a2b3c4");
    screen.load(lines);
    let mut window = window(10);
    screen.on_start(&mut window);
    assert!(!window.is_cursor_visible());
    assert_eq!(window.len(), 50);
    assert!(screen.move_screen_down(&mut window));
    assert_eq!(window.top(), 1);
    assert!(screen.jump_screen_down(&mut window));
    assert_eq!(window.top(), 21);
    assert!(screen.jump_screen_down(&mut window));
    assert_eq!(window.top(), 40);
    assert!(screen.move_screen_up(&mut window));
    assert_eq!(window.top(), 39);
    assert!(screen.jump_screen_up(&mut window));
    assert_eq!(window.top(), 19);
    assert!(screen.jump_screen_up(&mut window));
    assert_eq!(window.top(), 0);
    screen.on_exit(&mut window);
    assert!(window.is_cursor_visible());
}

#[test]
fn commit_screen_binds_its_keys() {
    let screen = CommitDiffWindow::new("1a2b3c4");
    let mut table: KeyHandlers<DiffAction> = KeyHandlers::new();
    screen.register_handlers(&mut table);
    assert_eq!(table.len(), 7);
    assert_eq!(table.get(KEY_EOT), Some(DiffAction::JumpScreenDown));
    assert_eq!(table.get(KEY_NAK), Some(DiffAction::JumpScreenUp));
    assert_eq!(table.get(KEY_N_LOWER), Some(DiffAction::NextSearchResult));
    assert_eq!(table.get(KEY_N_UPPER), Some(DiffAction::PrevSearchResult));
    assert_eq!(table.get(KEY_FORWARD_SLASH), Some(DiffAction::SearchCommits));
    assert_eq!(table.get(KEY_LF), None);
}

#[test]
fn commit_screen_searches() {
    let mut screen = CommitDiffWindow::new("1a2b3c4");
    screen.load(strings(&["+a", " b", "-a", " c"]));
    let mut window = window(3);
    screen.on_start(&mut window);
    screen.set_term("a".to_string());
    assert_eq!(screen.term(), "a");
    assert!(screen.next_search_result(&mut window));
    assert_eq!(window.cursor(), 2);
    assert!(screen.prev_search_result(&mut window));
    assert_eq!(window.cursor(), 0);
    let answer = screen.search_commits(&mut window);
    assert_eq!(
        answer,
        Reaction {
            proceed: true,
            request: Some(Request::AskSearchTerm {
                size: ScreenSize { lines: 2, cols: 80 },
                position: Point { x: 0, y: 1 },
            }),
            refresh: false,
        }
    );
    assert_eq!(screen.term(), "");
    screen.set_term("x".to_string());
    screen.clear_search();
    assert_eq!(screen.term(), "");
    assert!(screen.next_search_result(&mut window));
    assert_eq!(window.cursor(), 0);
}

#[test]
fn log_screen_asks_for_the_commit_on_the_cursor_row() {
    let mut screen = LogWindow::new();
    screen.load(strings(&["* 1a2b3c4 first", "| * 5d6e7f8 second", "|/", "* abc"]));
    let mut window = window(5);
    screen.on_start(&mut window);
    assert_eq!(window.len(), 4);
    assert_eq!(
        screen.get_commit_log(&mut window),
        Reaction {
            proceed: true,
            request: Some(Request::Show {
                screen: Overlay::CommitDiff { hash: "1a2b3c4".to_string() },
                size: ScreenSize { lines: 0, cols: 0 },
                position: Point { x: 0, y: 0 },
            }),
            refresh: false,
        }
    );
    window.move_next("second");
    let answer = screen.get_commit_log(&mut window);
    assert!(matches!(
        answer.request,
        Some(Request::Show { screen: Overlay::CommitDiff { ref hash }, .. }) if hash == "5d6e7f8"
    ));
    window.move_next("|/");
    assert_eq!(screen.get_commit_log(&mut window), stay());
    window.move_next("abc");
    assert_eq!(screen.get_commit_log(&mut window), stay());
}

#[test]
fn log_screen_does_nothing_without_entries() {
    let mut screen = LogWindow::new();
    let mut window = window(5);
    screen.on_start(&mut window);
    assert_eq!(window.len(), 0);
    assert_eq!(screen.get_commit_log(&mut window), stay());
}

#[test]
fn branch_screen_asks_before_it_deletes() {
    let mut screen = BranchWindow::new();
    screen.load(strings(&["* main", "  dev", "   "]));
    let mut window = window(24);
    screen.on_start(&mut window);
    assert_eq!(texts(&window), strings(&["* main", "  dev", "   "]));
    assert_eq!(screen.open_delete_branch_prompt(&mut window), stay());
    window.move_next("dev");
    assert_eq!(
        screen.open_delete_branch_prompt(&mut window),
        Reaction {
            proceed: true,
            request: Some(Request::Confirm {
                message: "Are you sure you want to delete branch 'dev'? y/n".to_string(),
                command: Command::DeleteBranch("dev".to_string()),
                size: ScreenSize { lines: 1, cols: 0 },
                position: Point { x: 0, y: 23 },
            }),
            refresh: true,
        }
    );
    window.move_next("   ");
    assert_eq!(window.cursor(), 2);
    assert_eq!(screen.open_delete_branch_prompt(&mut window), stay());
}

#[test]
fn branch_screen_checks_out_and_creates() {
    let mut screen = BranchWindow::new();
    screen.load(strings(&["* main", "  dev"]));
    let mut window = window(24);
    screen.on_start(&mut window);
    assert_eq!(screen.checkout_branch(&mut window), reload());
    window.move_next("dev");
    assert_eq!(
        screen.checkout_branch(&mut window),
        Reaction {
            proceed: true,
            request: Some(Request::Run(Command::CheckoutBranch("dev".to_string()))),
            refresh: true,
        }
    );
    assert_eq!(
        screen.create_branch(&mut window),
        Reaction {
            proceed: true,
            request: Some(Request::AskBranchName {
                label: "Enter new lbranch name:".to_string(),
                label_size: ScreenSize { lines: 1, cols: 0 },
                label_position: Point { x: 0, y: 22 },
                size: ScreenSize { lines: 2, cols: 0 },
                position: Point { x: 0, y: 23 },
            }),
            refresh: true,
        }
    );
    let mut table: KeyHandlers<BranchAction> = KeyHandlers::new();
    screen.register_handlers(&mut table);
    assert_eq!(table.get(KEY_D_LOWER), Some(BranchAction::OpenDeleteBranchPrompt));
    assert_eq!(table.get(KEY_LF), Some(BranchAction::CheckoutBranch));
    assert_eq!(table.get(KEY_N_LOWER), Some(BranchAction::CreateBranch));
    let mut empty = BranchWindow::new();
    let mut blank = Window::new(
        ScreenSize { lines: 3, cols: 3 },
        Point { x: 0, y: 0 },
        ScreenSize { lines: 3, cols: 3 },
    )
    .unwrap();
    empty.on_start(&mut blank);
    assert_eq!(empty.checkout_branch(&mut blank), stay());
}

#[test]
fn status_screen_groups_the_paths() {
    let mut state = snapshot(&[
        "?? new.txt",
        "?? dir/",
        "AM both.txt",
        "?? gone.txt",
        " D lost.txt",
        " M a.txt",
        "MM b.txt",
        "A  c.txt",
        "D  d.txt",
    ]);
    assert_eq!(
        untracked_paths(&state.status),
        strings(&["new.txt", "dir/", "both.txt", "gone.txt"])
    );
    state.probes = vec![
        Probe { path: "new.txt".to_string(), kind: PathKind::File },
        Probe { path: "dir/".to_string(), kind: PathKind::Directory(strings(&["dir/x", "dir/y"])) },
        Probe { path: "both.txt".to_string(), kind: PathKind::File },
        Probe { path: "gone.txt".to_string(), kind: PathKind::Other },
    ];
    state.origin_hash = "0f0f0f0".to_string();
    let mut screen = MainWindow::new();
    screen.load(state);
    let mut window = window(24);
    screen.on_start(&mut window);
    assert_eq!(
        texts(&window),
        strings(&[
            "Head:main 1a2b3c4 fix",
            "Origin origin/main 0f0f0f0 old",
            "",
            "Untracked files: (3)",
            "?? new.txt",
            "?? dir/x",
            "?? dir/y",
            "",
            "Untracked (modified) files: (1)",
            "AM both.txt",
            "",
            "Deleted files:",
            " D lost.txt",
            "",
            "Modified files: (2)",
            " M a.txt",
            "MM b.txt",
            "",
            "",
            "Staged files: (4)",
            "AM both.txt",
            "MM b.txt",
            "A  c.txt",
            "D  d.txt",
        ])
    );
    assert_eq!(
        window.line(0),
        &Line::new(vec![
            Part::new("Head:", Some(vec![Style::Bold, Style::Underlined])),
            Part::painted("main", Color::Rgb(0, 255, 255), Color::Rgb(0, 0, 0)),
            Part::plain(" "),
            Part::plain("1a2b3c4 fix"),
        ])
    );
    assert_eq!(window.line(1).part(1).foreground(), Some(Color::Rgb(255, 0, 0)));
    assert!(window.line(3).part(0).is_bold() && window.line(3).part(0).is_underlined());
    assert_eq!(window.line(2).len(), 0);
    assert_eq!(window.line(4), &Line::plain("?? new.txt"));
}

#[test]
fn status_screen_of_a_clean_tree() {
    let mut screen = MainWindow::new();
    screen.load(snapshot(&[]));
    let mut window = window(24);
    screen.on_start(&mut window);
    assert_eq!(
        texts(&window),
        strings(&["Head:main 1a2b3c4 fix", "", "Modified files: (0)", ""])
    );
}

#[test]
fn status_screen_uses_the_first_probe_of_a_path() {
    let mut state = snapshot(&["?? a", "AM d"]);
    state.probes = vec![
        Probe { path: "d".to_string(), kind: PathKind::Directory(strings(&["d/1"])) },
        Probe { path: "a".to_string(), kind: PathKind::Other },
        Probe { path: "a".to_string(), kind: PathKind::File },
    ];
    let mut screen = MainWindow::new();
    assert_eq!(screen.rows().len(), 4);
    screen.load(state);
    let rows: Vec<String> = screen.rows().iter().map(|row| row.text()).collect();
    assert_eq!(
        rows,
        strings(&[
            "Head:main 1a2b3c4 fix",
            "",
            "Untracked (modified) files: (1)",
            "?? d/1",
            "",
            "Modified files: (0)",
            "",
            "Staged files: (1)",
            "AM d",
        ])
    );
}

#[test]
fn status_screen_decides_by_the_cursor_row() {
    let mut state = snapshot(&["?? new.txt", " M a.txt", "M  s.txt"]);
    state.probes = vec![Probe { path: "new.txt".to_string(), kind: PathKind::File }];
    let mut screen = MainWindow::new();
    screen.load(state);
    let mut window = window(24);
    screen.on_start(&mut window);

    assert_eq!(window.get_cursor_line(), "Head:main 1a2b3c4 fix");
    assert_eq!(screen.diff_file(&mut window), stay());
    assert_eq!(screen.git_add_file(&mut window), reload());
    assert_eq!(screen.git_unstage_file(&mut window), reload());
    assert_eq!(screen.delete_untracked_file(&mut window), reload());
    assert_eq!(screen.git_checkout_file(&mut window), reload());

    window.move_next("?? new.txt");
    assert_eq!(
        screen.diff_file(&mut window),
        Reaction {
            proceed: true,
            request: Some(Request::Show {
                screen: Overlay::Diff { path: "new.txt".to_string(), state: FileState::Untracked },
                size: ScreenSize { lines: 24, cols: 80 },
                position: Point { x: 0, y: 0 },
            }),
            refresh: false,
        }
    );
    assert_eq!(
        screen.delete_untracked_file(&mut window),
        Reaction {
            proceed: true,
            request: Some(Request::Confirm {
                message: "Are you sure you want to delete file 'new.txt'? y/n".to_string(),
                command: Command::RemoveFile("new.txt".to_string()),
                size: ScreenSize { lines: 1, cols: 0 },
                position: Point { x: 0, y: 23 },
            }),
            refresh: true,
        }
    );
    assert_eq!(
        screen.git_add_file(&mut window),
        Reaction {
            proceed: true,
            request: Some(Request::Run(Command::AddFile("new.txt".to_string()))),
            refresh: true,
        }
    );
    assert_eq!(
        screen.open_in_file_manager(&mut window),
        Reaction {
            proceed: true,
            request: Some(Request::Run(Command::Browse("new.txt".to_string()))),
            refresh: false,
        }
    );

    window.move_next(" M a.txt");
    assert_eq!(
        screen.git_checkout_file(&mut window),
        Reaction {
            proceed: true,
            request: Some(Request::Confirm {
                message: "Are you sure you want to checkout file 'a.txt'? y/n".to_string(),
                command: Command::CheckoutFile("a.txt".to_string()),
                size: ScreenSize { lines: 1, cols: 0 },
                position: Point { x: 0, y: 23 },
            }),
            refresh: true,
        }
    );
    assert_eq!(screen.delete_untracked_file(&mut window), reload());
    assert_eq!(screen.git_unstage_file(&mut window), reload());

    window.move_next("M  s.txt");
    assert_eq!(
        screen.git_unstage_file(&mut window),
        Reaction {
            proceed: true,
            request: Some(Request::Run(Command::UnstageFile("s.txt".to_string()))),
            refresh: true,
        }
    );
    assert_eq!(screen.git_add_file(&mut window), reload());
}

#[test]
fn status_screen_does_nothing_on_a_row_without_a_path() {
    let mut screen = MainWindow::new();
    screen.load(snapshot(&[]));
    let mut window = window(24);
    screen.on_start(&mut window);
    window.move_next("Modified");
    window.move_next("Modified");
    assert_eq!(window.cursor(), 2);
    window.move_prev("");
    let mut blank = Window::new(
        ScreenSize { lines: 4, cols: 9 },
        Point { x: 0, y: 0 },
        ScreenSize { lines: 24, cols: 80 },
    )
    .unwrap();
    assert_eq!(screen.diff_file(&mut blank), stay());
    assert_eq!(screen.open_in_file_manager(&mut blank), stay());
    assert_eq!(screen.delete_untracked_file(&mut blank), stay());
    assert_eq!(screen.git_checkout_file(&mut blank), stay());
    assert_eq!(screen.git_add_file(&mut blank), stay());
    assert_eq!(screen.git_unstage_file(&mut blank), stay());
    blank.set_lines(vec![Line::plain("??")]);
    assert_eq!(screen.delete_untracked_file(&mut blank), stay());
    assert_eq!(screen.git_add_file(&mut blank), stay());
}

#[test]
fn status_screen_opens_the_other_screens() {
    let mut screen = MainWindow::new();
    let mut window = window(24);
    let whole = |screen: Overlay| Reaction {
        proceed: true,
        request: Some(Request::Show {
            screen,
            size: ScreenSize { lines: 0, cols: 0 },
            position: Point { x: 0, y: 0 },
        }),
        refresh: true,
    };
    let below = |screen: Overlay| Reaction {
        proceed: true,
        request: Some(Request::Show {
            screen,
            size: ScreenSize { lines: 2, cols: 80 },
            position: Point { x: 0, y: 22 },
        }),
        refresh: true,
    };
    assert_eq!(screen.open_branch_window(&mut window), whole(Overlay::Branches));
    assert_eq!(screen.open_log_window(&mut window), whole(Overlay::Log));
    assert_eq!(screen.open_command_window(&mut window), below(Overlay::CommandLine));
    assert_eq!(screen.git_commit_options(&mut window), below(Overlay::CommitOptions));
    assert_eq!(screen.git_push_options(&mut window), below(Overlay::PushOptions));
    assert_eq!(screen.refresh(&mut window), reload());
    assert_eq!(
        screen.search(&mut window),
        Reaction {
            proceed: true,
            request: Some(Request::AskSearchTerm {
                size: ScreenSize { lines: 2, cols: 80 },
                position: Point { x: 0, y: 22 },
            }),
            refresh: false,
        }
    );
}

#[test]
fn status_screen_binds_its_keys_and_the_search_keys() {
    let screen = MainWindow::new();
    let mut table: KeyHandlers<MainAction> = KeyHandlers::new();
    screen.register_handlers(&mut table);
    assert_eq!(table.len(), 15);
    assert_eq!(table.get(KEY_LF), Some(MainAction::DiffFile));
    assert_eq!(table.get(KEY_B_LOWER), Some(MainAction::OpenBranchWindow));
    assert_eq!(table.get(KEY_COLON), Some(MainAction::OpenCommandWindow));
    assert_eq!(table.get(KEY_R_UPPER), Some(MainAction::Refresh));
    assert_eq!(table.get(KEY_FORWARD_SLASH), Some(MainAction::Search));
    assert_eq!(table.get(KEY_N_LOWER), Some(MainAction::NextResult));
    assert_eq!(table.get(KEY_N_UPPER), Some(MainAction::PreviousResult));
}

#[test]
fn status_screen_repeats_a_search() {
    let mut screen = MainWindow::new();
    screen.load(snapshot(&[" M a.txt", " M b.txt"]));
    let mut window = window(24);
    screen.on_start(&mut window);
    screen.set_term(" M ".to_string());
    assert_eq!(screen.term(), " M ");
    assert_eq!(screen.handle(MainAction::NextResult, &mut window), stay());
    assert_eq!(window.get_cursor_line(), " M a.txt");
    assert_eq!(screen.handle(MainAction::NextResult, &mut window), stay());
    assert_eq!(window.get_cursor_line(), " M b.txt");
    assert_eq!(screen.handle(MainAction::PreviousResult, &mut window), stay());
    assert_eq!(window.get_cursor_line(), " M a.txt");
    assert_eq!(screen.handle(MainAction::Refresh, &mut window), reload());
}
