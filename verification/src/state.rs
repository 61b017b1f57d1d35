//! The interaction state machine as mathematics: the value of the
//! application state and, for every user intent, the state that follows.
//!
//! Every transition is total. An intent that does not apply (an index out of
//! range, an empty input where one is required, a move past the edge of the
//! board) leaves the state as it is.

use crate::board::{usable, BoardView, ColumnView, ProjectView, TaskView};
use crate::text::slug;
use vstd::prelude::*;

verus! {

/// Which part of a task the detail view has in focus.
#[derive(Clone, Copy, Debug, PartialEq, Eq, Structural)]
pub enum TaskField {
    Title,
    Tags,
    Description,
}

impl TaskField {
    /// The field that follows on the focus ring.
    pub open spec fn spec_next(self) -> TaskField {
        match self {
            TaskField::Title => TaskField::Tags,
            TaskField::Tags => TaskField::Description,
            TaskField::Description => TaskField::Title,
        }
    }

    /// The field that follows on the focus ring
    /// Title → Tags → Description → Title.
    pub fn next(self) -> (r: TaskField)
        ensures
            r == self.spec_next(),
    {
        match self {
            TaskField::Title => TaskField::Tags,
            TaskField::Tags => TaskField::Description,
            TaskField::Description => TaskField::Title,
        }
    }
}

/// The interaction mode: how input is read and which intents apply.
#[derive(Clone, Copy, Debug, PartialEq, Eq, Structural)]
pub enum InputMode {
    Normal,
    AddingTask,
    AddingTag,
    ViewingTask,
    EditingTitle,
    EditingDescription,
    ViewingHelp,
    ProjectList,
    AddingProject,
    AddingColumn,
    RenamingColumn,
}

/// The number of rows assumed visible until the first frame says otherwise.
pub const DEFAULT_VISIBLE_ITEMS: usize = 5;

/// How many cards of height `card_height`, `card_spacing` rows apart, fit
/// into `height` rows.
pub open spec fn cards_that_fit(height: int, card_height: int, card_spacing: int) -> int {
    (height + card_spacing) / (card_height + card_spacing)
}

/// The value of the application state.
pub struct AppView {
    /// The projects, in the order the project list shows them.
    pub projects: Seq<ProjectView>,
    /// The project whose board is shown.
    pub current_project: int,
    /// The project highlighted in the project list.
    pub selected_project_index: int,
    pub selected_column: int,
    pub selected_index: int,
    /// The first task of the selected column that is drawn.
    pub scroll_offset: int,
    /// How many tasks the selected column has room to draw.
    pub visible_items: int,
    pub input_mode: InputMode,
    pub input_buffer: Seq<char>,
    pub focused_field: TaskField,
    /// The collection has changed since it was last handed out for saving.
    pub save_pending: bool,
}

impl AppView {
    /// The state at start-up.
    pub open spec fn initial(projects: Seq<ProjectView>) -> AppView {
        AppView {
            projects,
            current_project: 0,
            selected_project_index: 0,
            selected_column: 0,
            selected_index: 0,
            scroll_offset: 0,
            visible_items: DEFAULT_VISIBLE_ITEMS as int,
            input_mode: InputMode::Normal,
            input_buffer: Seq::empty(),
            focused_field: TaskField::Title,
            save_pending: false,
        }
    }

    /// What every state satisfies: there is a project, every board has a
    /// column, both project indices point at a project, and no index is
    /// negative.
    pub open spec fn wf(self) -> bool {
        &&& usable(self.projects)
        &&& 0 <= self.current_project < self.projects.len()
        &&& 0 <= self.selected_project_index < self.projects.len()
        &&& 0 <= self.selected_column
        &&& 0 <= self.selected_index
        &&& 0 <= self.scroll_offset
        &&& 0 <= self.visible_items
    }

    /// The board of the current project.
    pub open spec fn board(self) -> BoardView {
        self.projects[self.current_project].board
    }

    /// The state with the board of the current project replaced.
    pub open spec fn with_board(self, board: BoardView) -> AppView {
        AppView {
            projects: self.projects.update(
                self.current_project,
                self.projects[self.current_project].with_board(board),
            ),
            ..self
        }
    }

    /// The selected column exists.
    pub open spec fn has_selected_column(self) -> bool {
        self.board().has_column(self.selected_column)
    }

    /// The selected column, where it exists.
    pub open spec fn selected_column_view(self) -> ColumnView {
        self.board().columns[self.selected_column]
    }

    /// The number of tasks in the selected column; zero if it does not exist.
    pub open spec fn column_len(self) -> int {
        self.board().task_count(self.selected_column) as int
    }

    /// There is a task at the selection.
    pub open spec fn has_selected_task(self) -> bool {
        self.board().has_task(self.selected_column, self.selected_index)
    }

    /// The task at the selection, where there is one.
    pub open spec fn selected_task(self) -> TaskView {
        self.board().columns[self.selected_column].tasks[self.selected_index]
    }

    /// The state with the task at the selection replaced.
    pub open spec fn with_selected_task(self, task: TaskView) -> AppView {
        self.with_board(self.board().set_task(self.selected_column, self.selected_index, task))
    }

    /// The selection points into the board: at an existing column, and in it
    /// at an existing task, or at position 0 if the column is empty.
    pub open spec fn selection_in_range(self) -> bool {
        &&& self.has_selected_column()
        &&& if self.column_len() == 0 {
            self.selected_index == 0
        } else {
            0 <= self.selected_index < self.column_len()
        }
    }

    /// The state with a save of the collection requested.
    pub open spec fn saved(self) -> AppView {
        AppView { save_pending: true, ..self }
    }

    /// The state in `mode` with the input buffer cleared.
    pub open spec fn leave_input(self, mode: InputMode) -> AppView {
        AppView { input_mode: mode, input_buffer: Seq::empty(), ..self }
    }

    /// The state in `mode` with the input buffer holding `text`.
    pub open spec fn enter_input(self, mode: InputMode, text: Seq<char>) -> AppView {
        AppView { input_mode: mode, input_buffer: text, ..self }
    }

    // ---- navigation ----
    /// Moves the selection one task up, unless it is at the top.
    pub open spec fn move_up(self) -> AppView {
        if self.selected_index > 0 {
            AppView { selected_index: self.selected_index - 1, ..self }
        } else {
            self
        }
    }

    /// Moves the selection one task down, unless it is at the last task.
    pub open spec fn move_down(self) -> AppView {
        if self.column_len() > 0 && self.selected_index < self.column_len() - 1 {
            AppView { selected_index: self.selected_index + 1, ..self }
        } else {
            self
        }
    }

    /// Brings the task index back into the selected column: to 0, with the
    /// scroll offset, if the column is empty, else to the last task if it is
    /// past it.
    pub open spec fn clamp_selection(self) -> AppView {
        if self.column_len() == 0 {
            AppView { selected_index: 0, scroll_offset: 0, ..self }
        } else if self.selected_index >= self.column_len() {
            AppView { selected_index: self.column_len() - 1, ..self }
        } else {
            self
        }
    }

    /// Moves the selection one column to the left, unless it is at the first.
    pub open spec fn move_left(self) -> AppView {
        if self.selected_column > 0 {
            AppView { selected_column: self.selected_column - 1, ..self }.clamp_selection()
        } else {
            self
        }
    }

    /// Moves the selection one column to the right, unless it is at the last.
    pub open spec fn move_right(self) -> AppView {
        if self.selected_column < self.board().columns.len() - 1 {
            AppView { selected_column: self.selected_column + 1, ..self }.clamp_selection()
        } else {
            self
        }
    }

    /// The largest scroll offset that still fills the window.
    pub open spec fn max_scroll(self) -> int {
        if self.column_len() > self.visible_items {
            self.column_len() - self.visible_items
        } else {
            0
        }
    }

    /// Moves the window so that the selection is inside it: down until the
    /// selection is its last row, or up until it is its first, and never
    /// past the end of the column. With a window of no rows nothing moves.
    pub open spec fn update_scroll(self) -> AppView {
        if self.visible_items == 0 {
            self
        } else {
            let down = if self.selected_index >= self.scroll_offset + self.visible_items {
                self.selected_index - self.visible_items + 1
            } else {
                self.scroll_offset
            };
            let up = if self.selected_index < down {
                self.selected_index
            } else {
                down
            };
            let offset = if up > self.max_scroll() {
                self.max_scroll()
            } else {
                up
            };
            AppView { scroll_offset: offset, ..self }
        }
    }

    /// Records how many cards the viewport has room for. With cards and
    /// spacing of no height at all there is nothing to divide by, and the
    /// count stays.
    pub open spec fn set_visible_items(
        self,
        height: int,
        card_height: int,
        card_spacing: int,
    ) -> AppView {
        if card_height + card_spacing > 0 {
            AppView { visible_items: cards_that_fit(height, card_height, card_spacing), ..self }
        } else {
            self
        }
    }

    // ---- tasks ----
    /// The selected task can go to the column at `to`.
    pub open spec fn can_move_task_to(self, to: int) -> bool {
        self.has_selected_task() && self.board().has_column(to)
    }

    /// Moves the selected task to the end of the column at `to`.
    pub open spec fn move_task_to(self, to: int) -> AppView {
        if self.can_move_task_to(to) {
            self.with_board(
                self.board().move_task(self.selected_column, self.selected_index, to),
            ).clamp_selection().saved()
        } else {
            self
        }
    }

    /// Moves the selected task to the end of the next column.
    pub open spec fn move_task_forward(self) -> AppView {
        self.move_task_to(self.selected_column + 1)
    }

    /// Moves the selected task to the end of the previous column.
    pub open spec fn move_task_backward(self) -> AppView {
        self.move_task_to(self.selected_column - 1)
    }

    /// Deletes the selected task.
    pub open spec fn delete_task(self) -> AppView {
        if self.has_selected_task() {
            self.with_board(
                self.board().remove_task(self.selected_column, self.selected_index),
            ).clamp_selection().saved()
        } else {
            self
        }
    }

    /// Removes the tag at `tag_index` from the selected task.
    pub open spec fn remove_tag(self, tag_index: int) -> AppView {
        if self.has_selected_task() && 0 <= tag_index < self.selected_task().tags.len() {
            self.with_selected_task(self.selected_task().remove_tag(tag_index)).saved()
        } else {
            self
        }
    }

    // ---- columns ----
    /// The selected column may be deleted: it is empty and not the only one.
    pub open spec fn can_delete_column(self) -> bool {
        &&& self.board().columns.len() > 1
        &&& self.has_selected_column()
        &&& self.selected_column_view().tasks.len() == 0
    }

    /// Deletes the selected column if it is empty and not the only one.
    pub open spec fn delete_column(self) -> AppView {
        if self.can_delete_column() {
            let board = self.board().remove_column(self.selected_column);
            let column = if self.selected_column >= board.columns.len() {
                board.columns.len() - 1
            } else {
                self.selected_column
            };
            AppView { selected_column: column, ..self.with_board(board) }.clamp_selection().saved()
        } else {
            self
        }
    }

    /// Exchanges the selected column with its left neighbour and follows it.
    pub open spec fn move_column_left(self) -> AppView {
        if self.selected_column > 0 && self.has_selected_column() {
            AppView {
                selected_column: self.selected_column - 1,
                ..self.with_board(
                    self.board().swap_columns(self.selected_column - 1, self.selected_column),
                )
            }.saved()
        } else {
            self
        }
    }

    /// Exchanges the selected column with its right neighbour and follows it.
    pub open spec fn move_column_right(self) -> AppView {
        if self.selected_column >= 0 && self.board().has_column(self.selected_column + 1) {
            AppView {
                selected_column: self.selected_column + 1,
                ..self.with_board(
                    self.board().swap_columns(self.selected_column, self.selected_column + 1),
                )
            }.saved()
        } else {
            self
        }
    }

    // ---- entering and leaving modes ----
    /// Enters the mode that reads the title of a new task.
    pub open spec fn start_adding_task(self) -> AppView {
        self.leave_input(InputMode::AddingTask)
    }

    /// Tagging needs a task to tag.
    pub open spec fn start_adding_tag(self) -> AppView {
        if self.has_selected_task() {
            self.leave_input(InputMode::AddingTag)
        } else {
            self
        }
    }

    /// Enters the mode that reads the name of a new column.
    pub open spec fn start_adding_column(self) -> AppView {
        self.leave_input(InputMode::AddingColumn)
    }

    /// Renaming starts from the current name.
    pub open spec fn start_renaming_column(self) -> AppView {
        if self.has_selected_column() {
            self.enter_input(InputMode::RenamingColumn, self.selected_column_view().name)
        } else {
            self
        }
    }

    /// Enters the mode that reads the name of a new project.
    pub open spec fn start_adding_project(self) -> AppView {
        self.leave_input(InputMode::AddingProject)
    }

    /// Opens the detail view on the selected task, with the title in focus.
    pub open spec fn open_task(self) -> AppView {
        if self.has_selected_task() {
            AppView {
                input_mode: InputMode::ViewingTask,
                focused_field: TaskField::Title,
                ..self
            }
        } else {
            self
        }
    }

    /// Moves the focus to the next field of the task detail view.
    pub open spec fn next_field(self) -> AppView {
        AppView { focused_field: self.focused_field.spec_next(), ..self }
    }

    /// Editing the title starts from the current title.
    pub open spec fn start_editing_title(self) -> AppView {
        if self.has_selected_task() {
            self.enter_input(InputMode::EditingTitle, self.selected_task().title)
        } else {
            self
        }
    }

    /// Editing the description starts from the current description.
    pub open spec fn start_editing_description(self) -> AppView {
        if self.has_selected_task() {
            self.enter_input(InputMode::EditingDescription, self.selected_task().description)
        } else {
            self
        }
    }

    /// Opens the help view.
    pub open spec fn show_help(self) -> AppView {
        AppView { input_mode: InputMode::ViewingHelp, ..self }
    }

    /// Closes a view and returns to the board.
    pub open spec fn close_view(self) -> AppView {
        self.leave_input(InputMode::Normal)
    }

    /// Abandons the input without changing any project. Title and
    /// description editing return to the task they edit, every other mode to
    /// the board.
    pub open spec fn cancel_input(self) -> AppView {
        match self.input_mode {
            InputMode::EditingTitle | InputMode::EditingDescription => self.leave_input(
                InputMode::ViewingTask,
            ),
            _ => self.leave_input(InputMode::Normal),
        }
    }

    // ---- text input ----
    /// Appends a character to the input.
    pub open spec fn input_char(self, c: char) -> AppView {
        AppView { input_buffer: self.input_buffer.push(c), ..self }
    }

    /// Deletes the last character of the input, if there is one.
    pub open spec fn input_backspace(self) -> AppView {
        if self.input_buffer.len() > 0 {
            AppView { input_buffer: self.input_buffer.drop_last(), ..self }
        } else {
            self
        }
    }

    /// The input, read as a new task: appended to the selected column and
    /// selected there.
    pub open spec fn submit_task(self) -> AppView {
        if self.input_buffer.len() > 0 && self.has_selected_column() {
            let board = self.board().push_task(
                self.selected_column,
                TaskView::titled(self.input_buffer),
            );
            AppView {
                selected_index: board.columns[self.selected_column].tasks.len() - 1,
                ..self.with_board(board)
            }.update_scroll().saved()
        } else {
            self
        }
    }

    /// The input, read as a tag for the selected task.
    pub open spec fn submit_tag(self) -> AppView {
        if self.input_buffer.len() > 0 && self.has_selected_task() {
            self.with_selected_task(self.selected_task().add_tag(self.input_buffer)).saved()
        } else {
            self
        }
    }

    /// The input, read as the new title of the selected task. A title cannot
    /// be emptied.
    pub open spec fn submit_title(self) -> AppView {
        if self.input_buffer.len() > 0 && self.has_selected_task() {
            self.with_selected_task(self.selected_task().with_title(self.input_buffer)).saved()
        } else {
            self
        }
    }

    /// The input, read as the new description of the selected task. An empty
    /// input clears the description.
    pub open spec fn submit_description(self) -> AppView {
        if self.has_selected_task() {
            self.with_selected_task(
                self.selected_task().with_description(self.input_buffer),
            ).saved()
        } else {
            self
        }
    }

    /// The input, read as the name of a new project, which becomes the
    /// current one.
    pub open spec fn submit_project(self) -> AppView {
        if self.input_buffer.len() > 0 {
            AppView {
                projects: self.projects.push(ProjectView::named(self.input_buffer)),
                current_project: self.projects.len() as int,
                selected_project_index: self.projects.len() as int,
                ..self
            }.saved()
        } else {
            self
        }
    }

    /// The input, read as the name of a new last column. Its identifier is
    /// derived from the name.
    pub open spec fn submit_column(self) -> AppView {
        if self.input_buffer.len() > 0 {
            self.with_board(
                self.board().push_column(
                    ColumnView::empty(slug(self.input_buffer), self.input_buffer),
                ),
            ).saved()
        } else {
            self
        }
    }

    /// The input, read as the new name of the selected column.
    pub open spec fn submit_rename(self) -> AppView {
        if self.input_buffer.len() > 0 && self.has_selected_column() {
            self.with_board(
                self.board().rename_column(self.selected_column, self.input_buffer),
            ).saved()
        } else {
            self
        }
    }

    /// Takes the input for what the mode says it is, then leaves the mode.
    /// Title and description editing return to the task, naming a project
    /// returns to the project list, and everything else to the board. In a
    /// mode that reads no input, submitting only returns to the board.
    pub open spec fn submit_input(self) -> AppView {
        match self.input_mode {
            InputMode::AddingTask => self.submit_task().leave_input(InputMode::Normal),
            InputMode::AddingTag => self.submit_tag().leave_input(InputMode::Normal),
            InputMode::EditingTitle => self.submit_title().leave_input(InputMode::ViewingTask),
            InputMode::EditingDescription => self.submit_description().leave_input(
                InputMode::ViewingTask,
            ),
            InputMode::AddingProject => self.submit_project().leave_input(InputMode::ProjectList),
            InputMode::AddingColumn => self.submit_column().leave_input(InputMode::Normal),
            InputMode::RenamingColumn => self.submit_rename().leave_input(InputMode::Normal),
            InputMode::Normal | InputMode::ViewingTask | InputMode::ViewingHelp
            | InputMode::ProjectList => self.leave_input(InputMode::Normal),
        }
    }

    // ---- projects ----
    /// Opens the project list with the current project highlighted.
    pub open spec fn open_project_list(self) -> AppView {
        AppView {
            input_mode: InputMode::ProjectList,
            selected_project_index: self.current_project,
            ..self
        }
    }

    /// Makes the highlighted project the current one and starts at the top
    /// of its first column.
    pub open spec fn select_project(self) -> AppView {
        AppView {
            current_project: self.selected_project_index,
            input_mode: InputMode::Normal,
            selected_column: 0,
            selected_index: 0,
            scroll_offset: 0,
            ..self
        }
    }

    /// Moves the highlight one project up, unless it is at the first.
    pub open spec fn move_project_up(self) -> AppView {
        if self.selected_project_index > 0 {
            AppView { selected_project_index: self.selected_project_index - 1, ..self }
        } else {
            self
        }
    }

    /// Moves the highlight one project down, unless it is at the last.
    pub open spec fn move_project_down(self) -> AppView {
        if self.selected_project_index < self.projects.len() - 1 {
            AppView { selected_project_index: self.selected_project_index + 1, ..self }
        } else {
            self
        }
    }

    /// Deletes the highlighted project unless it is the only one. An index
    /// that then points past the last project is set to the last project.
    pub open spec fn delete_project(self) -> AppView {
        if self.projects.len() > 1 {
            let projects = self.projects.remove(self.selected_project_index);
            let last = projects.len() - 1;
            AppView {
                projects,
                selected_project_index: if self.selected_project_index > last {
                    last
                } else {
                    self.selected_project_index
                },
                current_project: if self.current_project > last {
                    last
                } else {
                    self.current_project
                },
                ..self
            }.saved()
        } else {
            self
        }
    }

    // ---- saving ----
    /// The state once the collection has been handed out for saving.
    pub open spec fn save_taken(self) -> AppView {
        AppView { save_pending: false, ..self }
    }
}

} // verus!
