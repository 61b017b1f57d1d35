use tui_kanban::board::{Board, BoardColumn, Project, Task};
use tui_kanban::storage::{
    accept_current, default_projects, is_usable, load_projects, migrate_board, migrate_projects,
    LegacyBoard, LegacyProject, Loaded, Origin, Source,
};

fn task(title: &str) -> Task {
    Task::new(title.to_string())
}

fn legacy_board(todo: &[&str], in_progress: &[&str], testing: &[&str], done: &[&str]) -> LegacyBoard {
    LegacyBoard {
        todo: todo.iter().map(|t| task(t)).collect(),
        in_progress: in_progress.iter().map(|t| task(t)).collect(),
        testing: testing.iter().map(|t| task(t)).collect(),
        done: done.iter().map(|t| task(t)).collect(),
    }
}

fn titles(board: &Board, column: usize) -> Vec<&str> {
    board.columns[column].tasks.iter().map(|t| t.title.as_str()).collect()
}

fn custom_project(name: &str) -> Project {
    let mut project = Project::new(name.to_string());
    project.board.columns.push(BoardColumn::new("review".to_string(), "Review".to_string()));
    project.board.columns[4].tasks.push(task("check"));
    project
}

#[test]
fn a_legacy_board_becomes_a_board_of_four_columns() {
    let board = Board::from(legacy_board(&["A"], &[], &["B"], &[]));
    let ids: Vec<&str> = board.columns.iter().map(|c| c.id.as_str()).collect();
    let names: Vec<&str> = board.columns.iter().map(|c| c.name.as_str()).collect();
    assert_eq!(ids, vec!["todo", "in_progress", "testing", "done"]);
    assert_eq!(names, vec!["To Do", "In Progress", "Testing", "Done"]);
    assert_eq!(titles(&board, 0), vec!["A"]);
    assert!(titles(&board, 1).is_empty());
    assert_eq!(titles(&board, 2), vec!["B"]);
    assert!(titles(&board, 3).is_empty());
}

#[test]
fn a_legacy_board_keeps_tasks_whole_and_in_order() {
    let mut first = task("one");
    first.add_tag("bug".to_string());
    first.description = "details".to_string();
    let legacy = LegacyBoard {
        todo: vec![],
        in_progress: vec![],
        testing: vec![],
        done: vec![first.clone(), task("two"), task("three")],
    };
    let board = Board::from(legacy);
    assert_eq!(board.columns[3].tasks[0], first);
    assert_eq!(titles(&board, 3), vec!["one", "two", "three"]);
}

#[test]
fn a_legacy_project_keeps_its_name() {
    let legacy = LegacyProject { name: "Work".to_string(), board: legacy_board(&[], &["x"], &[], &[]) };
    let project = Project::from(legacy);
    assert_eq!(project.name, "Work");
    assert_eq!(project.board.columns.len(), 4);
    assert_eq!(titles(&project.board, 1), vec!["x"]);
}

#[test]
fn migration_round_trip() {
    // the oldest layout: a lone board
    let legacy = legacy_board(&["A"], &[], &["B"], &[]);
    let first = load_projects(None, None, Some(legacy.clone()));
    assert_eq!(first.origin, Origin::LegacyBoard);
    assert!(first.origin.needs_write_back());
    assert_eq!(first.projects.len(), 1);
    assert_eq!(first.projects[0].name, "Default");
    let board = &first.projects[0].board;
    let names: Vec<&str> = board.columns.iter().map(|c| c.name.as_str()).collect();
    assert_eq!(names, vec!["To Do", "In Progress", "Testing", "Done"]);
    assert_eq!(titles(board, 0), vec!["A"]);
    assert!(titles(board, 1).is_empty());
    assert_eq!(titles(board, 2), vec!["B"]);
    assert!(titles(board, 3).is_empty());

    // what was written back is what the next load finds in the current layout
    let written = first.projects.clone();
    let second = load_projects(Some(written.clone()), None, Some(legacy));
    assert_eq!(second.origin, Origin::Current);
    assert!(!second.origin.needs_write_back());
    assert_eq!(second.projects, written);
}

#[test]
fn the_current_layout_wins_over_older_files() {
    let current = vec![custom_project("Now")];
    let legacy_projects = vec![LegacyProject { name: "Old".to_string(), board: legacy_board(&["x"], &[], &[], &[]) }];
    let loaded = load_projects(
        Some(current.clone()),
        Some(legacy_projects),
        Some(legacy_board(&["y"], &[], &[], &[])),
    );
    assert_eq!(loaded, Loaded { projects: current, origin: Origin::Current });
}

#[test]
fn the_current_layout_is_returned_as_it_is() {
    let current = vec![custom_project("One"), Project::new("Two".to_string())];
    let loaded = load_projects(Some(current.clone()), None, None);
    assert_eq!(loaded.projects, current);
    assert_eq!(loaded.projects[0].board.columns.len(), 5);
    assert_eq!(loaded.projects[0].board.columns[4].id, "review");
}

#[test]
fn legacy_projects_are_migrated_in_order() {
    let legacy = vec![
        LegacyProject { name: "First".to_string(), board: legacy_board(&["a"], &[], &[], &[]) },
        LegacyProject { name: "Second".to_string(), board: legacy_board(&[], &["b"], &[], &["c", "d"]) },
        LegacyProject { name: "Third".to_string(), board: legacy_board(&[], &[], &[], &[]) },
    ];
    let loaded = load_projects(None, Some(legacy), Some(legacy_board(&["ignored"], &[], &[], &[])));
    assert_eq!(loaded.origin, Origin::LegacyProjects);
    assert!(loaded.origin.needs_write_back());
    let names: Vec<&str> = loaded.projects.iter().map(|p| p.name.as_str()).collect();
    assert_eq!(names, vec!["First", "Second", "Third"]);
    assert_eq!(titles(&loaded.projects[0].board, 0), vec!["a"]);
    assert_eq!(titles(&loaded.projects[1].board, 1), vec!["b"]);
    assert_eq!(titles(&loaded.projects[1].board, 3), vec!["c", "d"]);
    assert_eq!(loaded.projects[2].board, Board::new());
}

#[test]
fn a_corrupt_current_file_does_not_block_older_files() {
    // a file that does not parse arrives as `None`
    let legacy = vec![LegacyProject { name: "Old".to_string(), board: legacy_board(&["x"], &[], &[], &[]) }];
    let loaded = load_projects(None, Some(legacy), None);
    assert_eq!(loaded.origin, Origin::LegacyProjects);
    assert_eq!(loaded.projects[0].name, "Old");
}

#[test]
fn nothing_on_disk_gives_one_fresh_default_project() {
    let loaded = load_projects(None, None, None);
    assert_eq!(loaded.origin, Origin::Fresh);
    assert!(!loaded.origin.needs_write_back());
    assert_eq!(loaded.projects, vec![Project::new("Default".to_string())]);
}

#[test]
fn an_empty_current_collection_counts_as_missing() {
    let loaded = load_projects(Some(vec![]), None, Some(legacy_board(&["A"], &[], &[], &[])));
    assert_eq!(loaded.origin, Origin::LegacyBoard);
    assert_eq!(loaded.projects.len(), 1);
    let fresh = load_projects(Some(vec![]), None, None);
    assert_eq!(fresh.origin, Origin::Fresh);
    assert_eq!(fresh.projects.len(), 1);
}

#[test]
fn a_board_without_columns_counts_as_missing() {
    let broken = vec![
        Project::new("fine".to_string()),
        Project { name: "broken".to_string(), board: Board { columns: vec![] } },
    ];
    let loaded = load_projects(Some(broken), None, None);
    assert_eq!(loaded.origin, Origin::Fresh);
    assert_eq!(loaded.projects, vec![Project::new("Default".to_string())]);
}

#[test]
fn an_empty_legacy_collection_counts_as_missing() {
    let loaded = load_projects(None, Some(vec![]), Some(legacy_board(&[], &["B"], &[], &[])));
    assert_eq!(loaded.origin, Origin::LegacyBoard);
    assert_eq!(titles(&loaded.projects[0].board, 1), vec!["B"]);
    let fresh = load_projects(None, Some(vec![]), None);
    assert_eq!(fresh.origin, Origin::Fresh);
}

#[test]
fn every_load_gives_a_usable_collection() {
    let cases = vec![
        load_projects(None, None, None),
        load_projects(Some(vec![]), Some(vec![]), None),
        load_projects(Some(vec![custom_project("x")]), None, None),
        load_projects(None, None, Some(legacy_board(&[], &[], &[], &[]))),
    ];
    for loaded in cases.iter() {
        assert!(is_usable(&loaded.projects));
    }
}

#[test]
fn only_migrated_collections_are_written_back() {
    assert!(!Origin::Current.needs_write_back());
    assert!(Origin::LegacyProjects.needs_write_back());
    assert!(Origin::LegacyBoard.needs_write_back());
    assert!(!Origin::Fresh.needs_write_back());
}

#[test]
fn usable_means_a_project_and_a_column_in_every_board() {
    assert!(!is_usable(&vec![]));
    assert!(is_usable(&vec![Project::new("a".to_string())]));
    assert!(is_usable(&vec![Project::new("a".to_string()), custom_project("b")]));
    let columnless = Project { name: "c".to_string(), board: Board { columns: vec![] } };
    assert!(!is_usable(&vec![columnless.clone()]));
    assert!(!is_usable(&vec![Project::new("a".to_string()), columnless]));
    let one_column = Project {
        name: "d".to_string(),
        board: Board { columns: vec![BoardColumn::new("x".to_string(), "X".to_string())] },
    };
    assert!(is_usable(&vec![one_column]));
}

#[test]
fn accept_current_passes_usable_collections_only() {
    let good = vec![custom_project("x")];
    assert_eq!(accept_current(Some(good.clone())), Some(good));
    assert_eq!(accept_current(Some(vec![])), None);
    assert_eq!(accept_current(None), None);
}

#[test]
fn migrate_projects_of_nothing_is_nothing() {
    assert!(migrate_projects(vec![]).is_empty());
}

#[test]
fn migrate_board_wraps_the_board_in_default() {
    let projects = migrate_board(legacy_board(&["a"], &["b"], &["c"], &["d"]));
    assert_eq!(projects.len(), 1);
    assert_eq!(projects[0].name, "Default");
    assert_eq!(titles(&projects[0].board, 0), vec!["a"]);
    assert_eq!(titles(&projects[0].board, 1), vec!["b"]);
    assert_eq!(titles(&projects[0].board, 2), vec!["c"]);
    assert_eq!(titles(&projects[0].board, 3), vec!["d"]);
}

#[test]
fn default_projects_is_one_fresh_project() {
    let projects = default_projects();
    assert_eq!(projects.len(), 1);
    assert_eq!(projects[0].name, "Default");
    assert_eq!(projects[0].board, Board::new());
}

#[test]
fn the_three_files_and_where_they_lie() {
    assert_eq!(Source::Current.product(), "tui-kanban");
    assert_eq!(Source::LegacyProjects.product(), "omarchy-kanban");
    assert_eq!(Source::LegacyBoard.product(), "omarchy-kanban");
    assert_eq!(Source::Current.file_name(), "projects.json");
    assert_eq!(Source::LegacyProjects.file_name(), "projects.json");
    assert_eq!(Source::LegacyBoard.file_name(), "board.json");
    assert_eq!(Source::Current.fallback_file_name(), "projects.json");
    assert_eq!(Source::LegacyProjects.fallback_file_name(), "old_projects.json");
    assert_eq!(Source::LegacyBoard.fallback_file_name(), "board.json");
}
