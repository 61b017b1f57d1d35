use tui_kanban::app::App;
use tui_kanban::board::Project;
use tui_kanban::intent::{intent_for, tag_position_of, Intent, Key};
use tui_kanban::state::{InputMode, TaskField};
use tui_kanban::storage::default_projects;

const ALL_MODES: [InputMode; 11] = [
    InputMode::Normal,
    InputMode::AddingTask,
    InputMode::AddingTag,
    InputMode::ViewingTask,
    InputMode::EditingTitle,
    InputMode::EditingDescription,
    InputMode::ViewingHelp,
    InputMode::ProjectList,
    InputMode::AddingProject,
    InputMode::AddingColumn,
    InputMode::RenamingColumn,
];

fn plain(mode: InputMode, key: Key) -> Intent {
    intent_for(mode, TaskField::Title, key, false)
}

fn press(app: &mut App, keys: &str) {
    for c in keys.chars() {
        let quit = app.handle_key(Key::Char(c), false);
        assert!(!quit);
    }
}

fn titles(app: &App, column: usize) -> Vec<String> {
    app.board().columns[column].tasks.iter().map(|t| t.title.clone()).collect()
}

#[test]
fn board_keys() {
    let mode = InputMode::Normal;
    assert_eq!(plain(mode, Key::Char('q')), Intent::Quit);
    assert_eq!(plain(mode, Key::Char('h')), Intent::MoveLeft);
    assert_eq!(plain(mode, Key::Char('j')), Intent::MoveDown);
    assert_eq!(plain(mode, Key::Char('k')), Intent::MoveUp);
    assert_eq!(plain(mode, Key::Char('l')), Intent::MoveRight);
    assert_eq!(plain(mode, Key::Left), Intent::MoveLeft);
    assert_eq!(plain(mode, Key::Down), Intent::MoveDown);
    assert_eq!(plain(mode, Key::Up), Intent::MoveUp);
    assert_eq!(plain(mode, Key::Right), Intent::MoveRight);
    assert_eq!(plain(mode, Key::Enter), Intent::OpenTask);
    assert_eq!(plain(mode, Key::Char('a')), Intent::StartAddingTask);
    assert_eq!(plain(mode, Key::Char('t')), Intent::StartAddingTag);
    assert_eq!(plain(mode, Key::Char('m')), Intent::MoveTaskForward);
    assert_eq!(plain(mode, Key::Char('n')), Intent::MoveTaskBackward);
    assert_eq!(plain(mode, Key::Char('d')), Intent::DeleteTask);
    assert_eq!(plain(mode, Key::Char('c')), Intent::StartAddingColumn);
    assert_eq!(plain(mode, Key::Char('r')), Intent::StartRenamingColumn);
    assert_eq!(plain(mode, Key::Char('x')), Intent::DeleteColumn);
    assert_eq!(plain(mode, Key::Char('H')), Intent::MoveColumnLeft);
    assert_eq!(plain(mode, Key::Char('L')), Intent::MoveColumnRight);
    assert_eq!(plain(mode, Key::Char('?')), Intent::ShowHelp);
    assert_eq!(plain(mode, Key::Char('z')), Intent::Ignore);
    assert_eq!(plain(mode, Key::Char('p')), Intent::Ignore);
    assert_eq!(plain(mode, Key::Esc), Intent::Ignore);
    assert_eq!(plain(mode, Key::Tab), Intent::Ignore);
    assert_eq!(plain(mode, Key::Backspace), Intent::Ignore);
    assert_eq!(plain(mode, Key::Other), Intent::Ignore);
}

#[test]
fn line_input_keys() {
    for mode in [
        InputMode::AddingTask,
        InputMode::AddingTag,
        InputMode::AddingColumn,
        InputMode::RenamingColumn,
        InputMode::EditingTitle,
        InputMode::AddingProject,
    ] {
        assert_eq!(plain(mode, Key::Enter), Intent::Submit);
        assert_eq!(plain(mode, Key::Esc), Intent::Cancel);
        assert_eq!(plain(mode, Key::Backspace), Intent::Backspace);
        assert_eq!(plain(mode, Key::Char('q')), Intent::Type('q'));
        assert_eq!(plain(mode, Key::Char('1')), Intent::Type('1'));
        assert_eq!(plain(mode, Key::Char(' ')), Intent::Type(' '));
        assert_eq!(plain(mode, Key::Tab), Intent::Ignore);
        assert_eq!(plain(mode, Key::Left), Intent::Ignore);
        assert_eq!(plain(mode, Key::Other), Intent::Ignore);
    }
}

#[test]
fn description_keys() {
    let mode = InputMode::EditingDescription;
    assert_eq!(plain(mode, Key::Enter), Intent::Type('\n'));
    assert_eq!(plain(mode, Key::Esc), Intent::Submit);
    assert_eq!(plain(mode, Key::Backspace), Intent::Backspace);
    assert_eq!(plain(mode, Key::Char('x')), Intent::Type('x'));
    assert_eq!(plain(mode, Key::Tab), Intent::Ignore);
}

#[test]
fn detail_view_keys() {
    let mode = InputMode::ViewingTask;
    for focus in [TaskField::Title, TaskField::Tags, TaskField::Description] {
        assert_eq!(intent_for(mode, focus, Key::Esc, false), Intent::CloseView);
        assert_eq!(intent_for(mode, focus, Key::Tab, false), Intent::NextField);
        assert_eq!(intent_for(mode, focus, Key::Char('q'), false), Intent::Ignore);
        assert_eq!(intent_for(mode, focus, Key::Backspace, false), Intent::Ignore);
    }
    assert_eq!(intent_for(mode, TaskField::Title, Key::Enter, false), Intent::StartEditingTitle);
    assert_eq!(
        intent_for(mode, TaskField::Description, Key::Enter, false),
        Intent::StartEditingDescription
    );
    assert_eq!(intent_for(mode, TaskField::Tags, Key::Enter, false), Intent::Ignore);
}

#[test]
fn digits_remove_tags_only_while_tags_are_in_focus() {
    let mode = InputMode::ViewingTask;
    assert_eq!(intent_for(mode, TaskField::Tags, Key::Char('1'), false), Intent::RemoveTag(0));
    assert_eq!(intent_for(mode, TaskField::Tags, Key::Char('5'), false), Intent::RemoveTag(4));
    assert_eq!(intent_for(mode, TaskField::Tags, Key::Char('9'), false), Intent::RemoveTag(8));
    assert_eq!(intent_for(mode, TaskField::Tags, Key::Char('0'), false), Intent::Ignore);
    assert_eq!(intent_for(mode, TaskField::Tags, Key::Char(':'), false), Intent::Ignore);
    assert_eq!(intent_for(mode, TaskField::Title, Key::Char('1'), false), Intent::Ignore);
    assert_eq!(intent_for(mode, TaskField::Description, Key::Char('1'), false), Intent::Ignore);
}

#[test]
fn digit_keys_stand_for_tag_positions() {
    assert_eq!(tag_position_of('1'), Some(0));
    assert_eq!(tag_position_of('2'), Some(1));
    assert_eq!(tag_position_of('9'), Some(8));
    assert_eq!(tag_position_of('0'), None);
    assert_eq!(tag_position_of('a'), None);
    assert_eq!(tag_position_of('١'), None);
}

#[test]
fn help_keys() {
    let mode = InputMode::ViewingHelp;
    assert_eq!(plain(mode, Key::Esc), Intent::CloseView);
    assert_eq!(plain(mode, Key::Char('?')), Intent::CloseView);
    assert_eq!(plain(mode, Key::Char('q')), Intent::Ignore);
    assert_eq!(plain(mode, Key::Enter), Intent::Ignore);
}

#[test]
fn project_list_keys() {
    let mode = InputMode::ProjectList;
    assert_eq!(plain(mode, Key::Esc), Intent::CloseView);
    assert_eq!(plain(mode, Key::Char('j')), Intent::ProjectDown);
    assert_eq!(plain(mode, Key::Down), Intent::ProjectDown);
    assert_eq!(plain(mode, Key::Char('k')), Intent::ProjectUp);
    assert_eq!(plain(mode, Key::Up), Intent::ProjectUp);
    assert_eq!(plain(mode, Key::Enter), Intent::SelectProject);
    assert_eq!(plain(mode, Key::Char('a')), Intent::StartAddingProject);
    assert_eq!(plain(mode, Key::Char('d')), Intent::DeleteProject);
    assert_eq!(plain(mode, Key::Char('q')), Intent::Ignore);
    assert_eq!(plain(mode, Key::Left), Intent::Ignore);
}

#[test]
fn ctrl_p_opens_the_project_list_from_the_board_only() {
    for mode in ALL_MODES {
        let expected = if mode == InputMode::Normal { Intent::OpenProjectList } else { Intent::Ignore };
        assert_eq!(intent_for(mode, TaskField::Title, Key::Char('p'), true), expected);
    }
}

#[test]
fn ctrl_with_another_key_is_that_key() {
    assert_eq!(intent_for(InputMode::Normal, TaskField::Title, Key::Char('q'), true), Intent::Quit);
    assert_eq!(intent_for(InputMode::Normal, TaskField::Title, Key::Enter, true), Intent::OpenTask);
    assert_eq!(
        intent_for(InputMode::AddingTask, TaskField::Title, Key::Char('x'), true),
        Intent::Type('x')
    );
    assert_eq!(
        intent_for(InputMode::Normal, TaskField::Title, Key::Char('P'), true),
        Intent::Ignore
    );
}

#[test]
fn mutations_are_out_of_reach_outside_the_board() {
    // no key deletes or moves a task or a column while text is typed or a view is open
    let keys = [
        Key::Char('d'), Key::Char('m'), Key::Char('n'), Key::Char('x'), Key::Char('H'),
        Key::Char('L'), Key::Enter, Key::Esc, Key::Tab, Key::Backspace, Key::Left, Key::Right,
        Key::Up, Key::Down, Key::Other,
    ];
    let forbidden = [
        Intent::DeleteTask, Intent::MoveTaskForward, Intent::MoveTaskBackward,
        Intent::DeleteColumn, Intent::MoveColumnLeft, Intent::MoveColumnRight,
    ];
    for mode in ALL_MODES {
        if mode == InputMode::Normal {
            continue;
        }
        for focus in [TaskField::Title, TaskField::Tags, TaskField::Description] {
            for key in keys {
                for ctrl in [false, true] {
                    let intent = intent_for(mode, focus, key, ctrl);
                    assert!(!forbidden.contains(&intent));
                }
            }
        }
    }
}

#[test]
fn quitting_is_asked_for_on_the_board_only() {
    let mut app = App::new(default_projects());
    assert!(app.handle_key(Key::Char('q'), false));
    assert_eq!(app.input_mode(), InputMode::Normal);
    assert!(!app.save_pending());
    app.handle_key(Key::Char('a'), false);
    assert!(!app.handle_key(Key::Char('q'), false));
    assert_eq!(app.input_buffer(), "q");
    assert!(app.apply(Intent::Quit));
    assert!(!app.apply(Intent::Ignore));
    assert_eq!(app.input_buffer(), "q");
}

#[test]
fn keys_drive_a_task_across_the_board() {
    let mut app = App::new(default_projects());
    press(&mut app, "aWrite spec");
    assert_eq!(app.input_mode(), InputMode::AddingTask);
    assert_eq!(app.input_buffer(), "Write spec");
    app.handle_key(Key::Enter, false);
    assert_eq!(app.input_mode(), InputMode::Normal);
    assert_eq!(titles(&app, 0), vec!["Write spec"]);
    press(&mut app, "mlm");
    assert_eq!(titles(&app, 2), vec!["Write spec"]);
    assert!(titles(&app, 0).is_empty());
    assert!(titles(&app, 1).is_empty());
    // the selection is still on the column the task left
    press(&mut app, "n");
    assert_eq!(app.selected_column(), 1);
    assert_eq!(titles(&app, 2), vec!["Write spec"]);
    press(&mut app, "ln");
    assert_eq!(app.selected_column(), 2);
    assert!(titles(&app, 2).is_empty());
    assert_eq!(titles(&app, 1), vec!["Write spec"]);
    press(&mut app, "hd");
    assert!(titles(&app, 1).is_empty());
    assert!(app.save_pending());
}

#[test]
fn keys_tag_edit_and_untag_a_task() {
    let mut app = App::new(default_projects());
    press(&mut app, "atask");
    app.handle_key(Key::Enter, false);
    press(&mut app, "tbug");
    app.handle_key(Key::Enter, false);
    press(&mut app, "turgent");
    app.handle_key(Key::Enter, false);
    assert_eq!(app.board().columns[0].tasks[0].tags, vec!["bug", "urgent"]);

    app.handle_key(Key::Enter, false);
    assert_eq!(app.input_mode(), InputMode::ViewingTask);
    // digits mean nothing while the title is in focus
    press(&mut app, "1");
    assert_eq!(app.board().columns[0].tasks[0].tags, vec!["bug", "urgent"]);
    app.handle_key(Key::Enter, false);
    assert_eq!(app.input_mode(), InputMode::EditingTitle);
    press(&mut app, "!");
    app.handle_key(Key::Enter, false);
    assert_eq!(app.input_mode(), InputMode::ViewingTask);
    assert_eq!(app.board().columns[0].tasks[0].title, "task!");

    app.handle_key(Key::Tab, false);
    assert_eq!(app.focused_field(), TaskField::Tags);
    app.handle_key(Key::Enter, false);
    assert_eq!(app.input_mode(), InputMode::ViewingTask);
    press(&mut app, "3");
    assert_eq!(app.board().columns[0].tasks[0].tags, vec!["bug", "urgent"]);
    press(&mut app, "1");
    assert_eq!(app.board().columns[0].tasks[0].tags, vec!["urgent"]);

    app.handle_key(Key::Tab, false);
    app.handle_key(Key::Enter, false);
    assert_eq!(app.input_mode(), InputMode::EditingDescription);
    press(&mut app, "one");
    app.handle_key(Key::Enter, false);
    press(&mut app, "two");
    app.handle_key(Key::Backspace, false);
    app.handle_key(Key::Esc, false);
    assert_eq!(app.input_mode(), InputMode::ViewingTask);
    assert_eq!(app.board().columns[0].tasks[0].description, "one\ntw");
    app.handle_key(Key::Esc, false);
    assert_eq!(app.input_mode(), InputMode::Normal);
}

#[test]
fn escape_abandons_what_was_typed() {
    let mut app = App::new(default_projects());
    press(&mut app, "adraft");
    app.handle_key(Key::Esc, false);
    assert_eq!(app.input_mode(), InputMode::Normal);
    assert_eq!(app.input_buffer(), "");
    assert!(titles(&app, 0).is_empty());
    assert!(!app.save_pending());
    press(&mut app, "akeep");
    app.handle_key(Key::Enter, false);
    app.take_save_request();
    app.handle_key(Key::Enter, false);
    app.handle_key(Key::Enter, false);
    press(&mut app, "xx");
    app.handle_key(Key::Esc, false);
    assert_eq!(app.input_mode(), InputMode::ViewingTask);
    assert_eq!(titles(&app, 0), vec!["keep"]);
    assert!(!app.save_pending());
}

#[test]
fn keys_manage_columns() {
    let mut app = App::new(default_projects());
    press(&mut app, "cIn Review");
    app.handle_key(Key::Enter, false);
    let ids: Vec<String> = app.board().columns.iter().map(|c| c.id.clone()).collect();
    assert_eq!(ids, vec!["todo", "in_progress", "testing", "done", "in_review"]);
    press(&mut app, "llllH");
    let ids: Vec<String> = app.board().columns.iter().map(|c| c.id.clone()).collect();
    assert_eq!(ids, vec!["todo", "in_progress", "testing", "in_review", "done"]);
    assert_eq!(app.selected_column(), 3);
    press(&mut app, "r");
    assert_eq!(app.input_buffer(), "In Review");
    press(&mut app, "s");
    app.handle_key(Key::Enter, false);
    assert_eq!(app.board().columns[3].name, "In Reviews");
    assert_eq!(app.board().columns[3].id, "in_review");
    press(&mut app, "Lx");
    assert_eq!(app.board().columns.len(), 4);
    assert_eq!(app.selected_column(), 3);
    assert_eq!(app.board().columns[3].id, "done");
}

#[test]
fn keys_manage_projects() {
    let mut app = App::new(vec![Project::new("A".to_string()), Project::new("B".to_string())]);
    app.handle_key(Key::Char('p'), true);
    assert_eq!(app.input_mode(), InputMode::ProjectList);
    // asked for again inside the list, it is swallowed
    app.handle_key(Key::Char('p'), true);
    assert_eq!(app.input_mode(), InputMode::ProjectList);
    press(&mut app, "j");
    app.handle_key(Key::Enter, false);
    assert_eq!(app.project_name(), "B");
    app.handle_key(Key::Char('p'), true);
    press(&mut app, "aC");
    app.handle_key(Key::Enter, false);
    assert_eq!(app.input_mode(), InputMode::ProjectList);
    assert_eq!(app.projects().len(), 3);
    assert_eq!(app.project_name(), "C");
    press(&mut app, "kkd");
    assert_eq!(app.projects().len(), 2);
    assert_eq!(app.projects()[0].name, "B");
    app.handle_key(Key::Esc, false);
    assert_eq!(app.input_mode(), InputMode::Normal);
    // a plain p on the board means nothing
    press(&mut app, "p");
    assert_eq!(app.input_mode(), InputMode::Normal);
}

#[test]
fn arrow_keys_move_the_selection_and_the_window() {
    let mut app = App::new(default_projects());
    app.set_visible_items(11, 5, 1);
    for title in ["a", "b", "c", "d"] {
        press(&mut app, "a");
        press(&mut app, title);
        app.handle_key(Key::Enter, false);
    }
    assert_eq!((app.selected_index(), app.scroll_offset()), (3, 2));
    app.handle_key(Key::Up, false);
    app.handle_key(Key::Up, false);
    assert_eq!((app.selected_index(), app.scroll_offset()), (1, 1));
    app.handle_key(Key::Down, false);
    app.handle_key(Key::Down, false);
    assert_eq!((app.selected_index(), app.scroll_offset()), (3, 2));
    app.handle_key(Key::Right, false);
    assert_eq!((app.selected_column(), app.selected_index(), app.scroll_offset()), (1, 0, 0));
    app.handle_key(Key::Left, false);
    assert_eq!((app.selected_column(), app.selected_index(), app.scroll_offset()), (0, 0, 0));
}

#[test]
fn help_is_toggled_with_the_question_mark() {
    let mut app = App::new(default_projects());
    press(&mut app, "?");
    assert_eq!(app.input_mode(), InputMode::ViewingHelp);
    press(&mut app, "a");
    assert_eq!(app.input_mode(), InputMode::ViewingHelp);
    press(&mut app, "?");
    assert_eq!(app.input_mode(), InputMode::Normal);
}
