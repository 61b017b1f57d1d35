//! What holds of the board, the state machine and the load cascade as a
//! whole, proved from their definitions.

use crate::board::{usable, BoardView, Column, ColumnView, ProjectView, TaskView};
use crate::intent::{intent_of, Intent, Key};
use crate::state::{cards_that_fit, AppView, InputMode, TaskField};
use crate::text::slug;
use crate::storage::{
    default_name, resolve, LegacyBoardView, LegacyProjectView, LoadedView, Origin,
};
use vstd::prelude::*;

verus! {

// ---- tags ----
/// Adding a tag a second time changes nothing: the tag is there once, after
/// the tags that were there before, which keep their places. On a task
/// without tags the result is that one tag.
pub proof fn add_tag_is_idempotent(task: TaskView, tag: Seq<char>)
    ensures
        task.add_tag(tag).add_tag(tag) == task.add_tag(tag),
        task.add_tag(tag).tags.contains(tag),
        task.tags.is_prefix_of(task.add_tag(tag).tags),
        task.tags.len() == 0 ==> task.add_tag(tag).add_tag(tag).tags == seq![tag],
        task.add_tag(tag).title == task.title,
        task.add_tag(tag).description == task.description,
{
    let once = task.add_tag(tag);
    if task.tags.contains(tag) {
    } else {
        assert(once.tags[task.tags.len() as int] == tag);
        assert(task.tags.len() == 0 ==> once.tags =~= seq![tag]);
    }
    assert(once.tags.contains(tag));
}

/// Adding a tag keeps the tags free of duplicates.
pub proof fn add_tag_keeps_tags_distinct(task: TaskView, tag: Seq<char>)
    requires
        task.tags_distinct(),
    ensures
        task.add_tag(tag).tags_distinct(),
{
}

/// A tag that is added after others comes after them, whatever is added
/// again later: the order of the tags is the order in which each was first
/// seen.
pub proof fn tags_keep_first_seen_order(task: TaskView, first: Seq<char>, second: Seq<char>)
    requires
        task.tags.len() == 0,
        first != second,
    ensures
        task.add_tag(first).add_tag(second).add_tag(first).tags == seq![first, second],
{
    let one = task.add_tag(first);
    assert(one.tags =~= seq![first]);
    assert(!one.tags.contains(second));
    let two = one.add_tag(second);
    assert(two.tags =~= seq![first, second]);
    assert(two.tags[0] == first);
}

// ---- well-formedness ----
/// Replacing the current board by one that has a column keeps the state
/// well formed.
pub proof fn with_board_keeps_wf(s: AppView, board: BoardView)
    requires
        s.wf(),
        board.wf(),
    ensures
        s.with_board(board).wf(),
        s.with_board(board).board() == board,
{
}

/// Moving the selection or the window keeps the state well formed.
pub proof fn navigation_keeps_wf(s: AppView)
    requires
        s.wf(),
    ensures
        s.move_up().wf(),
        s.move_down().wf(),
        s.move_left().wf(),
        s.move_right().wf(),
        s.clamp_selection().wf(),
        s.update_scroll().wf(),
        s.move_project_up().wf(),
        s.move_project_down().wf(),
        s.select_project().wf(),
        s.open_project_list().wf(),
{
}

/// Moving or deleting a task, or removing a tag, keeps the state well
/// formed.
pub proof fn task_intents_keep_wf(s: AppView)
    requires
        s.wf(),
    ensures
        forall|to: int| (#[trigger] s.move_task_to(to)).wf(),
        s.delete_task().wf(),
        forall|index: int| (#[trigger] s.remove_tag(index)).wf(),
{
    assert forall|to: int| (#[trigger] s.move_task_to(to)).wf() by {
        if s.can_move_task_to(to) {
            let board = s.board().move_task(s.selected_column, s.selected_index, to);
            with_board_keeps_wf(s, board);
        }
    }
    if s.has_selected_task() {
        with_board_keeps_wf(s, s.board().remove_task(s.selected_column, s.selected_index));
    }
    assert forall|index: int| (#[trigger] s.remove_tag(index)).wf() by {
        if s.has_selected_task() {
            with_board_keeps_wf(
                s,
                s.board().set_task(
                    s.selected_column,
                    s.selected_index,
                    s.selected_task().remove_tag(index),
                ),
            );
        }
    }
}

/// Deleting or moving a column keeps the state well formed.
pub proof fn column_intents_keep_wf(s: AppView)
    requires
        s.wf(),
    ensures
        s.delete_column().wf(),
        s.move_column_left().wf(),
        s.move_column_right().wf(),
{
    if s.can_delete_column() {
        with_board_keeps_wf(s, s.board().remove_column(s.selected_column));
    }
    if s.selected_column > 0 && s.has_selected_column() {
        with_board_keeps_wf(s, s.board().swap_columns(s.selected_column - 1, s.selected_column));
    }
    if s.board().has_column(s.selected_column + 1) {
        with_board_keeps_wf(s, s.board().swap_columns(s.selected_column, s.selected_column + 1));
    }
}

/// Entering and leaving a mode, and typing, keep the state well formed.
pub proof fn mode_intents_keep_wf(s: AppView)
    requires
        s.wf(),
    ensures
        s.open_task().wf(),
        s.start_adding_task().wf(),
        s.start_adding_tag().wf(),
        s.start_adding_column().wf(),
        s.start_renaming_column().wf(),
        s.start_adding_project().wf(),
        s.start_editing_title().wf(),
        s.start_editing_description().wf(),
        s.show_help().wf(),
        s.close_view().wf(),
        s.next_field().wf(),
        s.cancel_input().wf(),
        s.input_backspace().wf(),
        forall|c: char| (#[trigger] s.input_char(c)).wf(),
        forall|mode: InputMode| (#[trigger] s.leave_input(mode)).wf(),
{
}

/// Deleting a project keeps the state well formed.
pub proof fn delete_project_keeps_wf(s: AppView)
    requires
        s.wf(),
    ensures
        s.delete_project().wf(),
{
    if s.projects.len() > 1 {
        let projects = s.projects.remove(s.selected_project_index);
        assert forall|i: int| 0 <= i < projects.len() implies (#[trigger] projects[i]).board.wf() by {
            if i < s.selected_project_index {
                assert(projects[i] == s.projects[i]);
            } else {
                assert(projects[i] == s.projects[i + 1]);
            }
        }
    }
}

/// Every intent takes a well-formed state to a well-formed state.
pub proof fn apply_keeps_wf(s: AppView, intent: Intent)
    requires
        s.wf(),
    ensures
        s.apply(intent).wf(),
{
    match intent {
        Intent::Ignore | Intent::Quit => {},
        Intent::MoveUp => {
            navigation_keeps_wf(s);
            navigation_keeps_wf(s.move_up());
        },
        Intent::MoveDown => {
            navigation_keeps_wf(s);
            navigation_keeps_wf(s.move_down());
        },
        Intent::MoveLeft => {
            navigation_keeps_wf(s);
            navigation_keeps_wf(s.move_left());
        },
        Intent::MoveRight => {
            navigation_keeps_wf(s);
            navigation_keeps_wf(s.move_right());
        },
        Intent::ProjectUp | Intent::ProjectDown | Intent::SelectProject
        | Intent::OpenProjectList => {
            navigation_keeps_wf(s);
        },
        Intent::MoveTaskForward | Intent::MoveTaskBackward | Intent::DeleteTask
        | Intent::RemoveTag(_) => {
            task_intents_keep_wf(s);
        },
        Intent::DeleteColumn | Intent::MoveColumnLeft | Intent::MoveColumnRight => {
            column_intents_keep_wf(s);
        },
        Intent::Submit => {
            submit_keeps_wf(s);
        },
        Intent::DeleteProject => {
            delete_project_keeps_wf(s);
        },
        _ => {
            mode_intents_keep_wf(s);
        },
    }
}

/// Each way of taking the input keeps the state well formed.
pub proof fn submissions_keep_wf(s: AppView)
    requires
        s.wf(),
    ensures
        s.submit_task().wf(),
        s.submit_tag().wf(),
        s.submit_title().wf(),
        s.submit_description().wf(),
        s.submit_project().wf(),
        s.submit_column().wf(),
        s.submit_rename().wf(),
{
    if s.has_selected_column() {
        let board = s.board().push_task(s.selected_column, TaskView::titled(s.input_buffer));
        with_board_keeps_wf(s, board);
        let selected = AppView {
            selected_index: board.columns[s.selected_column].tasks.len() - 1,
            ..s.with_board(board)
        };
        navigation_keeps_wf(selected);
        with_board_keeps_wf(s, s.board().rename_column(s.selected_column, s.input_buffer));
    }
    if s.has_selected_task() {
        let board = s.board();
        let task = s.selected_task();
        with_board_keeps_wf(
            s,
            board.set_task(s.selected_column, s.selected_index, task.add_tag(s.input_buffer)),
        );
        with_board_keeps_wf(
            s,
            board.set_task(s.selected_column, s.selected_index, task.with_title(s.input_buffer)),
        );
        with_board_keeps_wf(
            s,
            board.set_task(
                s.selected_column,
                s.selected_index,
                task.with_description(s.input_buffer),
            ),
        );
    }
    with_board_keeps_wf(
        s,
        s.board().push_column(
            ColumnView::empty(slug(s.input_buffer), s.input_buffer),
        ),
    );
    let projects = s.projects.push(ProjectView::named(s.input_buffer));
    assert forall|i: int| 0 <= i < projects.len() implies (#[trigger] projects[i]).board.wf() by {
        if i < s.projects.len() {
            assert(projects[i] == s.projects[i]);
        }
    }
}

/// Submitting the input keeps the state well formed.
pub proof fn submit_keeps_wf(s: AppView)
    requires
        s.wf(),
    ensures
        s.submit_input().wf(),
{
    submissions_keep_wf(s);
    match s.input_mode {
        InputMode::AddingTask => mode_intents_keep_wf(s.submit_task()),
        InputMode::AddingTag => mode_intents_keep_wf(s.submit_tag()),
        InputMode::EditingTitle => mode_intents_keep_wf(s.submit_title()),
        InputMode::EditingDescription => mode_intents_keep_wf(s.submit_description()),
        InputMode::AddingProject => mode_intents_keep_wf(s.submit_project()),
        InputMode::AddingColumn => mode_intents_keep_wf(s.submit_column()),
        InputMode::RenamingColumn => mode_intents_keep_wf(s.submit_rename()),
        _ => mode_intents_keep_wf(s),
    }
}

/// Every sequence of intents takes a well-formed state to a well-formed
/// state.
pub proof fn apply_all_keeps_wf(s: AppView, intents: Seq<Intent>)
    requires
        s.wf(),
    ensures
        s.apply_all(intents).wf(),
    decreases intents.len(),
{
    if intents.len() > 0 {
        apply_all_keeps_wf(s, intents.drop_last());
        apply_keeps_wf(s.apply_all(intents.drop_last()), intents.last());
    }
}

// ---- the selection ----
/// The intents that may show another board under the selection: deleting a
/// project, and submitting the name of a new one.
pub open spec fn changes_board_shown(s: AppView, intent: Intent) -> bool {
    intent == Intent::DeleteProject || (intent == Intent::Submit && s.input_mode
        == InputMode::AddingProject)
}

/// Moving the selection keeps it inside the board.
pub proof fn navigation_keeps_in_range(s: AppView)
    requires
        s.wf(),
        s.selection_in_range(),
    ensures
        s.move_up().selection_in_range(),
        s.move_down().selection_in_range(),
        s.move_left().selection_in_range(),
        s.move_right().selection_in_range(),
        s.clamp_selection().selection_in_range(),
        s.update_scroll().selection_in_range(),
        s.move_project_up().selection_in_range(),
        s.move_project_down().selection_in_range(),
        s.open_project_list().selection_in_range(),
{
}

/// Clamping brings any selected task index back into an existing column.
pub proof fn clamp_brings_selection_in_range(s: AppView)
    requires
        s.wf(),
        s.has_selected_column(),
    ensures
        s.clamp_selection().selection_in_range(),
        s.clamp_selection().saved().selection_in_range(),
{
}

/// Switching to the highlighted project starts at the top of its first
/// column, which is inside its board.
pub proof fn select_project_is_in_range(s: AppView)
    requires
        s.wf(),
    ensures
        s.select_project().selection_in_range(),
{
}

/// Moving or deleting a task, or removing a tag, keeps the selection inside
/// the board.
pub proof fn task_intents_keep_in_range(s: AppView)
    requires
        s.wf(),
        s.selection_in_range(),
    ensures
        forall|to: int| (#[trigger] s.move_task_to(to)).selection_in_range(),
        s.delete_task().selection_in_range(),
        forall|index: int| (#[trigger] s.remove_tag(index)).selection_in_range(),
{
    assert forall|to: int| (#[trigger] s.move_task_to(to)).selection_in_range() by {
        if s.can_move_task_to(to) {
            let board = s.board().move_task(s.selected_column, s.selected_index, to);
            with_board_keeps_wf(s, board);
            clamp_brings_selection_in_range(s.with_board(board));
        }
    }
    if s.has_selected_task() {
        let board = s.board().remove_task(s.selected_column, s.selected_index);
        with_board_keeps_wf(s, board);
        clamp_brings_selection_in_range(s.with_board(board));
    }
    assert forall|index: int| (#[trigger] s.remove_tag(index)).selection_in_range() by {
        if s.has_selected_task() {
            with_board_keeps_wf(
                s,
                s.board().set_task(
                    s.selected_column,
                    s.selected_index,
                    s.selected_task().remove_tag(index),
                ),
            );
        }
    }
}

/// Deleting or moving a column keeps the selection inside the board.
pub proof fn column_intents_keep_in_range(s: AppView)
    requires
        s.wf(),
        s.selection_in_range(),
    ensures
        s.delete_column().selection_in_range(),
        s.move_column_left().selection_in_range(),
        s.move_column_right().selection_in_range(),
{
    if s.can_delete_column() {
        let board = s.board().remove_column(s.selected_column);
        with_board_keeps_wf(s, board);
        let column = if s.selected_column >= board.columns.len() {
            board.columns.len() - 1
        } else {
            s.selected_column
        };
        clamp_brings_selection_in_range(AppView { selected_column: column, ..s.with_board(board) });
    }
    if s.selected_column > 0 && s.has_selected_column() {
        with_board_keeps_wf(s, s.board().swap_columns(s.selected_column - 1, s.selected_column));
    }
    if s.board().has_column(s.selected_column + 1) {
        with_board_keeps_wf(s, s.board().swap_columns(s.selected_column, s.selected_column + 1));
    }
}

/// Entering and leaving a mode, and typing, do not touch the selection.
pub proof fn mode_intents_keep_in_range(s: AppView)
    requires
        s.selection_in_range(),
    ensures
        s.open_task().selection_in_range(),
        s.start_adding_task().selection_in_range(),
        s.start_adding_tag().selection_in_range(),
        s.start_adding_column().selection_in_range(),
        s.start_renaming_column().selection_in_range(),
        s.start_adding_project().selection_in_range(),
        s.start_editing_title().selection_in_range(),
        s.start_editing_description().selection_in_range(),
        s.show_help().selection_in_range(),
        s.close_view().selection_in_range(),
        s.next_field().selection_in_range(),
        s.cancel_input().selection_in_range(),
        s.input_backspace().selection_in_range(),
        forall|c: char| (#[trigger] s.input_char(c)).selection_in_range(),
        forall|mode: InputMode| (#[trigger] s.leave_input(mode)).selection_in_range(),
{
}

/// Taking the input for anything but a new project keeps the selection
/// inside the board.
pub proof fn submissions_keep_in_range(s: AppView)
    requires
        s.wf(),
        s.selection_in_range(),
    ensures
        s.submit_task().selection_in_range(),
        s.submit_tag().selection_in_range(),
        s.submit_title().selection_in_range(),
        s.submit_description().selection_in_range(),
        s.submit_column().selection_in_range(),
        s.submit_rename().selection_in_range(),
{
    let board = s.board();
    let pushed = board.push_task(s.selected_column, TaskView::titled(s.input_buffer));
    with_board_keeps_wf(s, pushed);
    let selected = AppView {
        selected_index: pushed.columns[s.selected_column].tasks.len() - 1,
        ..s.with_board(pushed)
    };
    assert(selected.selection_in_range());
    navigation_keeps_in_range(selected);
    with_board_keeps_wf(s, board.rename_column(s.selected_column, s.input_buffer));
    with_board_keeps_wf(
        s,
        board.push_column(
            ColumnView::empty(slug(s.input_buffer), s.input_buffer),
        ),
    );
    if s.has_selected_task() {
        let task = s.selected_task();
        with_board_keeps_wf(
            s,
            board.set_task(s.selected_column, s.selected_index, task.add_tag(s.input_buffer)),
        );
        with_board_keeps_wf(
            s,
            board.set_task(s.selected_column, s.selected_index, task.with_title(s.input_buffer)),
        );
        with_board_keeps_wf(
            s,
            board.set_task(
                s.selected_column,
                s.selected_index,
                task.with_description(s.input_buffer),
            ),
        );
    }
}

/// A selection that points into the board still does after any intent that
/// leaves the same board on show.
pub proof fn apply_keeps_selection_in_range(s: AppView, intent: Intent)
    requires
        s.wf(),
        s.selection_in_range(),
        !changes_board_shown(s, intent),
    ensures
        s.apply(intent).selection_in_range(),
{
    match intent {
        Intent::Ignore | Intent::Quit => {},
        Intent::MoveUp => {
            navigation_keeps_wf(s);
            navigation_keeps_in_range(s);
            navigation_keeps_in_range(s.move_up());
        },
        Intent::MoveDown => {
            navigation_keeps_wf(s);
            navigation_keeps_in_range(s);
            navigation_keeps_in_range(s.move_down());
        },
        Intent::MoveLeft => {
            navigation_keeps_wf(s);
            navigation_keeps_in_range(s);
            navigation_keeps_in_range(s.move_left());
        },
        Intent::MoveRight => {
            navigation_keeps_wf(s);
            navigation_keeps_in_range(s);
            navigation_keeps_in_range(s.move_right());
        },
        Intent::ProjectUp | Intent::ProjectDown | Intent::OpenProjectList => {
            navigation_keeps_in_range(s);
        },
        Intent::SelectProject => {
            select_project_is_in_range(s);
        },
        Intent::MoveTaskForward | Intent::MoveTaskBackward | Intent::DeleteTask
        | Intent::RemoveTag(_) => {
            task_intents_keep_in_range(s);
        },
        Intent::DeleteColumn | Intent::MoveColumnLeft | Intent::MoveColumnRight => {
            column_intents_keep_in_range(s);
        },
        Intent::Submit => {
            submissions_keep_in_range(s);
            match s.input_mode {
                InputMode::AddingTask => mode_intents_keep_in_range(s.submit_task()),
                InputMode::AddingTag => mode_intents_keep_in_range(s.submit_tag()),
                InputMode::EditingTitle => mode_intents_keep_in_range(s.submit_title()),
                InputMode::EditingDescription => mode_intents_keep_in_range(
                    s.submit_description(),
                ),
                InputMode::AddingColumn => mode_intents_keep_in_range(s.submit_column()),
                InputMode::RenamingColumn => mode_intents_keep_in_range(s.submit_rename()),
                _ => mode_intents_keep_in_range(s),
            }
        },
        Intent::DeleteProject => {},
        _ => {
            mode_intents_keep_in_range(s);
        },
    }
}

/// A navigation intent moves the selection and the window, and nothing else.
pub proof fn navigation_changes_selection_only(s: AppView, intent: Intent)
    requires
        intent.is_navigation(),
    ensures
        s.apply(intent).projects == s.projects,
        s.apply(intent).current_project == s.current_project,
        s.apply(intent).input_mode == s.input_mode,
        s.apply(intent).input_buffer == s.input_buffer,
        s.apply(intent).focused_field == s.focused_field,
        s.apply(intent).visible_items == s.visible_items,
        s.apply(intent).save_pending == s.save_pending,
{
}

/// Through any sequence of navigation intents the selected column stays a
/// column of the board, the selected task stays a task of that column (or
/// position 0 while the column is empty), and the highlighted project stays
/// a project.
pub proof fn navigation_keeps_selection_in_range(s: AppView, intents: Seq<Intent>)
    requires
        s.wf(),
        s.selection_in_range(),
        forall|i: int| 0 <= i < intents.len() ==> (#[trigger] intents[i]).is_navigation(),
    ensures
        s.apply_all(intents).wf(),
        s.apply_all(intents).selection_in_range(),
        0 <= s.apply_all(intents).selected_project_index < s.apply_all(intents).projects.len(),
        s.apply_all(intents).projects == s.projects,
        s.apply_all(intents).save_pending == s.save_pending,
    decreases intents.len(),
{
    if intents.len() > 0 {
        let before = s.apply_all(intents.drop_last());
        navigation_keeps_selection_in_range(s, intents.drop_last());
        apply_keeps_wf(before, intents.last());
        apply_keeps_selection_in_range(before, intents.last());
        navigation_changes_selection_only(before, intents.last());
    }
}

/// After the window has been moved, the selection is inside it, and the
/// window does not reach past the end of the column.
pub proof fn update_scroll_shows_selection(s: AppView)
    requires
        s.wf(),
        s.selection_in_range(),
        s.visible_items > 0,
    ensures
        s.update_scroll().scroll_offset <= s.selected_index < s.update_scroll().scroll_offset
            + s.visible_items,
        0 <= s.update_scroll().scroll_offset <= s.max_scroll(),
        s.update_scroll() == (AppView { scroll_offset: s.update_scroll().scroll_offset, ..s }),
{
}

/// The count of cards that fit is the largest count that fits: that many
/// cards with the spacing between them need no more rows than there are,
/// and one card more would.
pub proof fn cards_that_fit_is_largest(height: int, card_height: int, card_spacing: int)
    requires
        0 <= height,
        0 <= card_height,
        0 <= card_spacing,
        card_height + card_spacing > 0,
    ensures
        ({
            let count = cards_that_fit(height, card_height, card_spacing);
            &&& 0 <= count
            &&& count * card_height + (count - 1) * card_spacing <= height
            &&& (count + 1) * card_height + count * card_spacing > height
        }),
{
    let stride = card_height + card_spacing;
    let room = height + card_spacing;
    let count = room / stride;
    vstd::arithmetic::div_mod::lemma_fundamental_div_mod(room, stride);
    vstd::arithmetic::div_mod::lemma_mod_bound(room, stride);
    vstd::arithmetic::div_mod::lemma_div_pos_is_pos(room, stride);
    assert(room == stride * count + room % stride);
    assert(count * card_height + (count - 1) * card_spacing == stride * count - card_spacing)
        by (nonlinear_arith)
        requires
            stride == card_height + card_spacing,
    ;
    assert((count + 1) * card_height + count * card_spacing == stride * count + stride
        - card_spacing) by (nonlinear_arith)
        requires
            stride == card_height + card_spacing,
    ;
}

/// Recording the size of the same viewport again changes nothing.
pub proof fn set_visible_items_is_idempotent(
    s: AppView,
    height: int,
    card_height: int,
    card_spacing: int,
)
    ensures
        s.set_visible_items(height, card_height, card_spacing).set_visible_items(
            height,
            card_height,
            card_spacing,
        ) == s.set_visible_items(height, card_height, card_spacing),
        s.set_visible_items(height, card_height, card_spacing).projects == s.projects,
        s.set_visible_items(height, card_height, card_spacing).save_pending == s.save_pending,
{
}

// ---- columns ----
/// A column that holds a task is not deleted, and neither is the only
/// column of a board, empty or not: the state stays as it is.
pub proof fn delete_column_is_rejected(s: AppView)
    requires
        s.wf(),
        (s.has_selected_column() && s.selected_column_view().tasks.len() > 0)
            || s.board().columns.len() == 1,
    ensures
        s.delete_column() == s,
{
}

/// An empty column that is not the only one is deleted: the other columns
/// stay, in order, and the selection points into the board again.
pub proof fn delete_column_removes_it(s: AppView)
    requires
        s.wf(),
        s.can_delete_column(),
    ensures
        s.delete_column().wf(),
        s.delete_column().board().columns == s.board().columns.remove(s.selected_column),
        s.delete_column().board().columns.len() == s.board().columns.len() - 1,
        s.delete_column().selection_in_range(),
        s.delete_column().save_pending,
{
}

// ---- moving a task ----
/// From the last column a task does not move forward.
pub proof fn move_forward_from_last_column_is_noop(s: AppView)
    requires
        s.wf(),
        s.selected_column >= s.board().columns.len() - 1,
    ensures
        s.move_task_forward() == s,
{
}

/// From the first column a task does not move backward.
pub proof fn move_backward_from_first_column_is_noop(s: AppView)
    requires
        s.wf(),
        s.selected_column == 0,
    ensures
        s.move_task_backward() == s,
{
}

/// Without a task at the selection nothing moves.
pub proof fn move_without_task_is_noop(s: AppView)
    requires
        s.wf(),
        !s.has_selected_task(),
    ensures
        s.move_task_forward() == s,
        s.move_task_backward() == s,
        s.delete_task() == s,
{
}

/// Moving the selected task to the column at `to` takes it out of its
/// column and appends it to the other. The tasks that stay keep their
/// order, the tasks of the other column keep theirs, and every other
/// column, like every other project, is untouched.
pub proof fn move_task_moves_one_task(s: AppView, to: int)
    requires
        s.wf(),
        s.has_selected_task(),
        s.board().has_column(to),
        to != s.selected_column,
    ensures
        ({
            let from = s.selected_column;
            let idx = s.selected_index;
            let before = s.board().columns;
            let after = s.move_task_to(to).board().columns;
            &&& after.len() == before.len()
            &&& after[from].tasks == before[from].tasks.remove(idx)
            &&& after[to].tasks == before[to].tasks.push(before[from].tasks[idx])
            &&& forall|i: int|
                0 <= i < before.len() ==> (#[trigger] after[i]).id == before[i].id && after[i].name
                    == before[i].name
            &&& forall|i: int|
                0 <= i < before.len() && i != from && i != to ==> #[trigger] after[i] == before[i]
            &&& forall|p: int|
                0 <= p < s.projects.len() && p != s.current_project ==> #[trigger] s.move_task_to(
                    to,
                ).projects[p] == s.projects[p]
            &&& s.move_task_to(to).projects.len() == s.projects.len()
            &&& s.move_task_to(to).save_pending
            &&& s.move_task_to(to).wf()
        }),
{
}

/// Moving a task forward from a column that is not the last one moves it to
/// the end of the next column.
pub proof fn move_forward_appends_to_next_column(s: AppView)
    requires
        s.wf(),
        s.has_selected_task(),
        s.selected_column + 1 < s.board().columns.len(),
    ensures
        ({
            let from = s.selected_column;
            let idx = s.selected_index;
            let before = s.board().columns;
            let after = s.move_task_forward().board().columns;
            &&& after.len() == before.len()
            &&& after[from].tasks == before[from].tasks.remove(idx)
            &&& after[from + 1].tasks == before[from + 1].tasks.push(before[from].tasks[idx])
            &&& forall|i: int|
                0 <= i < before.len() && i != from && i != from + 1 ==> #[trigger] after[i]
                    == before[i]
        }),
{
    move_task_moves_one_task(s, s.selected_column + 1);
}

/// A moved task leaves the order of all other tasks as it was. In the
/// column it left, the tasks above it stay where they are and the tasks
/// below it move up by one; in the column it went to, every task stays
/// where it is and the moved task comes last.
pub proof fn move_task_keeps_order_of_others(s: AppView, to: int)
    requires
        s.wf(),
        s.has_selected_task(),
        s.board().has_column(to),
        to != s.selected_column,
    ensures
        ({
            let from = s.selected_column;
            let idx = s.selected_index;
            let source = s.board().columns[from].tasks;
            let target = s.board().columns[to].tasks;
            let left = s.move_task_to(to).board().columns[from].tasks;
            let arrived = s.move_task_to(to).board().columns[to].tasks;
            &&& left.len() == source.len() - 1
            &&& forall|i: int| 0 <= i < idx ==> #[trigger] left[i] == source[i]
            &&& forall|i: int| idx <= i < left.len() ==> #[trigger] left[i] == source[i + 1]
            &&& arrived.len() == target.len() + 1
            &&& forall|i: int| 0 <= i < target.len() ==> #[trigger] arrived[i] == target[i]
            &&& arrived[target.len() as int] == source[idx]
        }),
{
    move_task_moves_one_task(s, to);
}

// ---- submitting ----
/// Submitting an empty title for a new task adds no task, changes no
/// project and requests no save; the mode returns to the board.
pub proof fn empty_task_title_is_not_submitted(s: AppView)
    requires
        s.input_mode == InputMode::AddingTask,
        s.input_buffer.len() == 0,
    ensures
        s.submit_input().projects == s.projects,
        s.submit_input().column_len() == s.column_len(),
        s.submit_input().save_pending == s.save_pending,
        s.submit_input() == s.leave_input(InputMode::Normal),
{
}

/// A submitted title adds one task, at the end of the selected column, and
/// selects it.
pub proof fn task_title_is_submitted(s: AppView)
    requires
        s.wf(),
        s.input_mode == InputMode::AddingTask,
        s.input_buffer.len() > 0,
        s.has_selected_column(),
    ensures
        s.submit_input().column_len() == s.column_len() + 1,
        s.submit_input().selected_index == s.column_len(),
        s.submit_input().selected_task() == TaskView::titled(s.input_buffer),
        s.submit_input().save_pending,
        s.submit_input().input_mode == InputMode::Normal,
        s.submit_input().input_buffer.len() == 0,
{
}

/// Cancelling an input changes no project and requests no save.
pub proof fn cancel_changes_no_project(s: AppView)
    ensures
        s.cancel_input().projects == s.projects,
        s.cancel_input().save_pending == s.save_pending,
        s.cancel_input().input_buffer.len() == 0,
{
}

// ---- projects ----
/// The only project is not deleted.
pub proof fn last_project_is_not_deleted(s: AppView)
    requires
        s.projects.len() <= 1,
    ensures
        s.delete_project() == s,
{
}

// ---- loading ----
/// Whatever the files yield, the loaded collection is usable.
pub proof fn load_gives_usable_projects(
    current: Option<Seq<ProjectView>>,
    legacy_projects: Option<Seq<LegacyProjectView>>,
    legacy_board: Option<LegacyBoardView>,
)
    ensures
        usable(resolve(current, legacy_projects, legacy_board).projects),
{
}

/// A lone legacy board, with no newer file beside it, is loaded as one
/// project named "Default" whose board has the four canonical columns in
/// order, each holding the tasks of its list; and it is written back.
pub proof fn lone_board_becomes_default_project(legacy: LegacyBoardView)
    ensures
        ({
            let loaded = resolve(None, None, Some(legacy));
            let columns = loaded.projects[0].board.columns;
            &&& loaded.origin == Origin::LegacyBoard
            &&& loaded.origin.spec_needs_write_back()
            &&& loaded.projects.len() == 1
            &&& loaded.projects[0].name == default_name()
            &&& columns.len() == 4
            &&& columns[0] == Column::Todo.holding(legacy.todo)
            &&& columns[1] == Column::InProgress.holding(legacy.in_progress)
            &&& columns[2] == Column::Testing.holding(legacy.testing)
            &&& columns[3] == Column::Done.holding(legacy.done)
        }),
{
}

/// Legacy projects are migrated one for one: names and order stay.
pub proof fn legacy_projects_keep_names_and_order(legacy: Seq<LegacyProjectView>)
    requires
        legacy.len() > 0,
    ensures
        ({
            let loaded = resolve(None, Some(legacy), None);
            &&& loaded.origin == Origin::LegacyProjects
            &&& loaded.projects.len() == legacy.len()
            &&& forall|i: int|
                0 <= i < legacy.len() ==> (#[trigger] loaded.projects[i]).name == legacy[i].name
                    && loaded.projects[i].board == legacy[i].board.migrated()
        }),
{
}

/// Once a loaded collection has been written back in the current layout,
/// the next load takes it from there as it is, whatever the older files
/// hold, and asks for no further write.
pub proof fn load_after_write_back_is_direct(
    current: Option<Seq<ProjectView>>,
    legacy_projects: Option<Seq<LegacyProjectView>>,
    legacy_board: Option<LegacyBoardView>,
    later_projects: Option<Seq<LegacyProjectView>>,
    later_board: Option<LegacyBoardView>,
)
    ensures
        ({
            let first = resolve(current, legacy_projects, legacy_board);
            resolve(Some(first.projects), later_projects, later_board) == (LoadedView {
                projects: first.projects,
                origin: Origin::Current,
            })
        }),
{
    load_gives_usable_projects(current, legacy_projects, legacy_board);
}

// ---- start-up ----
/// The state at start-up is well formed, and its selection points into the
/// board.
pub proof fn initial_state_is_in_range(projects: Seq<ProjectView>)
    requires
        usable(projects),
    ensures
        AppView::initial(projects).wf(),
        AppView::initial(projects).selection_in_range(),
        !AppView::initial(projects).save_pending,
{
}

// ---- saving ----
/// What an intent does to the collection and to the save request: it
/// either leaves the collection as it is and the request as it was, or it
/// requests a save.
pub open spec fn saves_what_it_changes(before: AppView, after: AppView) -> bool {
    after.save_pending || (after.projects == before.projects && !before.save_pending)
}

/// Moving or deleting a task, or removing a tag, requests a save whenever
/// it changes the collection.
pub proof fn task_intents_save_what_they_change(s: AppView)
    ensures
        forall|to: int| saves_what_it_changes(s, #[trigger] s.move_task_to(to)),
        saves_what_it_changes(s, s.delete_task()),
        forall|index: int| saves_what_it_changes(s, #[trigger] s.remove_tag(index)),
{
}

/// Deleting or moving a column requests a save whenever it changes the
/// collection.
pub proof fn column_intents_save_what_they_change(s: AppView)
    ensures
        saves_what_it_changes(s, s.delete_column()),
        saves_what_it_changes(s, s.move_column_left()),
        saves_what_it_changes(s, s.move_column_right()),
{
}

/// Submitting the input requests a save whenever it changes the collection.
pub proof fn submit_saves_what_it_changes(s: AppView)
    ensures
        saves_what_it_changes(s, s.submit_input()),
{
    match s.input_mode {
        InputMode::AddingTask => {
            assert(saves_what_it_changes(s, s.submit_task()));
        },
        InputMode::AddingTag => {
            assert(saves_what_it_changes(s, s.submit_tag()));
        },
        InputMode::EditingTitle => {
            assert(saves_what_it_changes(s, s.submit_title()));
        },
        InputMode::EditingDescription => {
            assert(saves_what_it_changes(s, s.submit_description()));
        },
        InputMode::AddingProject => {
            assert(saves_what_it_changes(s, s.submit_project()));
        },
        InputMode::AddingColumn => {
            assert(saves_what_it_changes(s, s.submit_column()));
        },
        InputMode::RenamingColumn => {
            assert(saves_what_it_changes(s, s.submit_rename()));
        },
        _ => {},
    }
}

/// No intent changes the collection without requesting a save, and none
/// withdraws a request: a change is never left unsaved.
pub proof fn apply_saves_what_it_changes(s: AppView, intent: Intent)
    ensures
        saves_what_it_changes(s, s.apply(intent)),
{
    match intent {
        Intent::MoveTaskForward | Intent::MoveTaskBackward | Intent::DeleteTask
        | Intent::RemoveTag(_) => {
            task_intents_save_what_they_change(s);
        },
        Intent::DeleteColumn | Intent::MoveColumnLeft | Intent::MoveColumnRight => {
            column_intents_save_what_they_change(s);
        },
        Intent::Submit => {
            submit_saves_what_it_changes(s);
        },
        Intent::MoveUp => {
            assert(s.apply(intent) == s.move_up().update_scroll());
        },
        Intent::MoveDown => {
            assert(s.apply(intent) == s.move_down().update_scroll());
        },
        Intent::MoveLeft => {
            assert(s.apply(intent) == s.move_left().update_scroll());
        },
        Intent::MoveRight => {
            assert(s.apply(intent) == s.move_right().update_scroll());
        },
        _ => {},
    }
}

// ---- modes ----
/// The intents that change a task's place or a column's.
pub open spec fn rearranges_board(intent: Intent) -> bool {
    match intent {
        Intent::MoveTaskForward | Intent::MoveTaskBackward | Intent::DeleteTask
        | Intent::DeleteColumn | Intent::MoveColumnLeft | Intent::MoveColumnRight => true,
        _ => false,
    }
}

/// Tasks and columns are moved and deleted from the board only: in every
/// other mode no key stands for such an intent, nor for quitting.
pub proof fn board_is_rearranged_in_normal_mode_only(
    mode: InputMode,
    focus: TaskField,
    key: Key,
    ctrl: bool,
)
    requires
        mode != InputMode::Normal,
    ensures
        !rearranges_board(intent_of(mode, focus, key, ctrl)),
        intent_of(mode, focus, key, ctrl) != Intent::Quit,
{
}

/// On the board the arrow keys, and h, j, k and l, stand for navigation.
pub proof fn arrow_keys_navigate(focus: TaskField, ctrl: bool)
    ensures
        intent_of(InputMode::Normal, focus, Key::Up, ctrl).is_navigation(),
        intent_of(InputMode::Normal, focus, Key::Down, ctrl).is_navigation(),
        intent_of(InputMode::Normal, focus, Key::Left, ctrl).is_navigation(),
        intent_of(InputMode::Normal, focus, Key::Right, ctrl).is_navigation(),
        intent_of(InputMode::Normal, focus, Key::Char('h'), ctrl) == Intent::MoveLeft,
        intent_of(InputMode::Normal, focus, Key::Char('j'), ctrl) == Intent::MoveDown,
        intent_of(InputMode::Normal, focus, Key::Char('k'), ctrl) == Intent::MoveUp,
        intent_of(InputMode::Normal, focus, Key::Char('l'), ctrl) == Intent::MoveRight,
{
}

/// A file of the current layout that holds a usable collection wins over
/// any older file.
pub proof fn current_layout_wins(
    projects: Seq<ProjectView>,
    legacy_projects: Option<Seq<LegacyProjectView>>,
    legacy_board: Option<LegacyBoardView>,
)
    requires
        usable(projects),
    ensures
        resolve(Some(projects), legacy_projects, legacy_board) == (LoadedView {
            projects,
            origin: Origin::Current,
        }),
{
}

} // verus!
