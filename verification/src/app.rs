//! The application state and one operation per user intent. Each operation
//! is proved to take the state's value to the one [`AppView`] gives for it.

use crate::board::{
    lemma_deep_push, lemma_deep_remove, lemma_deep_update_any, usable, Board, BoardColumn,
    Project, Task,
};
use crate::state::{AppView, InputMode, TaskField, DEFAULT_VISIBLE_ITEMS};
use crate::storage::is_usable;
use crate::text::slugify;
use vstd::prelude::*;

verus! {

/// The live state: the projects, the selection, the interaction mode and
/// the text being typed.
///
/// The state never writes anything itself. An operation that changes the
/// project collection raises a flag, and whoever drives the state collects
/// it with [`App::take_save_request`] and writes the collection out.
pub struct App {
    projects: Vec<Project>,
    current_project: usize,
    selected_project_index: usize,
    selected_column: usize,
    selected_index: usize,
    scroll_offset: usize,
    visible_items: usize,
    input_mode: InputMode,
    input_buffer: String,
    focused_field: TaskField,
    save_pending: bool,
}

impl View for App {
    type V = AppView;

    closed spec fn view(&self) -> AppView {
        AppView {
            projects: self.projects.deep_view(),
            current_project: self.current_project as int,
            selected_project_index: self.selected_project_index as int,
            selected_column: self.selected_column as int,
            selected_index: self.selected_index as int,
            scroll_offset: self.scroll_offset as int,
            visible_items: self.visible_items as int,
            input_mode: self.input_mode,
            input_buffer: self.input_buffer@,
            focused_field: self.focused_field,
            save_pending: self.save_pending,
        }
    }
}

impl App {
    /// The state is well formed: see [`AppView::wf`].
    pub open spec fn wf(&self) -> bool {
        self@.wf()
    }

    /// Creates the state at start-up from the loaded projects.
    pub fn new(projects: Vec<Project>) -> (app: App)
        requires
            usable(projects.deep_view()),
        ensures
            app.wf(),
            app@ == AppView::initial(projects.deep_view()),
    {
        App {
            projects,
            current_project: 0,
            selected_project_index: 0,
            selected_column: 0,
            selected_index: 0,
            scroll_offset: 0,
            visible_items: DEFAULT_VISIBLE_ITEMS,
            input_mode: InputMode::Normal,
            input_buffer: String::new(),
            focused_field: TaskField::Title,
            save_pending: false,
        }
    }

    /// Whether the state is well formed. It is after every operation of this
    /// type; only what has been done through [`App::board_mut`] can break it.
    pub fn is_well_formed(&self) -> (r: bool)
        ensures
            r == self.wf(),
    {
        is_usable(&self.projects) && self.current_project < self.projects.len()
            && self.selected_project_index < self.projects.len()
    }

    // ---- read access ----
    /// All projects, in list order.
    pub fn projects(&self) -> (r: &Vec<Project>)
        ensures
            r.deep_view() == self@.projects,
    {
        &self.projects
    }

    /// The index of the project whose board is shown.
    pub fn current_project(&self) -> (r: usize)
        ensures
            r == self@.current_project,
    {
        self.current_project
    }

    /// The index of the project highlighted in the project list.
    pub fn selected_project_index(&self) -> (r: usize)
        ensures
            r == self@.selected_project_index,
    {
        self.selected_project_index
    }

    /// The index of the selected column.
    pub fn selected_column(&self) -> (r: usize)
        ensures
            r == self@.selected_column,
    {
        self.selected_column
    }

    /// The index of the selected task within the selected column.
    pub fn selected_index(&self) -> (r: usize)
        ensures
            r == self@.selected_index,
    {
        self.selected_index
    }

    /// The index of the first task drawn in the selected column.
    pub fn scroll_offset(&self) -> (r: usize)
        ensures
            r == self@.scroll_offset,
    {
        self.scroll_offset
    }

    /// How many tasks the selected column has room to draw.
    pub fn visible_items(&self) -> (r: usize)
        ensures
            r == self@.visible_items,
    {
        self.visible_items
    }

    /// The interaction mode.
    pub fn input_mode(&self) -> (r: InputMode)
        ensures
            r == self@.input_mode,
    {
        self.input_mode
    }

    /// The text typed so far.
    pub fn input_buffer(&self) -> (r: &str)
        ensures
            r@ == self@.input_buffer,
    {
        self.input_buffer.as_str()
    }

    /// The field in focus in the task detail view.
    pub fn focused_field(&self) -> (r: TaskField)
        ensures
            r == self@.focused_field,
    {
        self.focused_field
    }

    /// Whether the collection has changed since it was last taken for saving.
    pub fn save_pending(&self) -> (r: bool)
        ensures
            r == self@.save_pending,
    {
        self.save_pending
    }

    /// The current project.
    pub fn project(&self) -> (r: &Project)
        requires
            self.wf(),
        ensures
            r@ == self@.projects[self@.current_project],
    {
        &self.projects[self.current_project]
    }

    /// The board of the current project.
    pub fn board(&self) -> (r: &Board)
        requires
            self.wf(),
        ensures
            r@ == self@.board(),
    {
        &self.projects[self.current_project].board
    }

    /// The board of the current project, for modification. The state
    /// afterwards differs in that board only. The caller has to leave the
    /// board with at least one column.
    pub fn board_mut(&mut self) -> (r: &mut Board)
        requires
            old(self).wf(),
        ensures
            r@ == old(self)@.board(),
            final(self)@ == old(self)@.with_board(final(r)@),
    {
        proof {
            lemma_deep_update_any(self.projects, self.current_project as int);
        }
        &mut self.projects[self.current_project].board
    }

    /// The name of the current project.
    pub fn project_name(&self) -> (r: &str)
        requires
            self.wf(),
        ensures
            r@ == self@.projects[self@.current_project].name,
    {
        self.projects[self.current_project].name.as_str()
    }

    /// The selected column, or `None` if the selection points at none.
    pub fn current_column(&self) -> (r: Option<&BoardColumn>)
        requires
            self.wf(),
        ensures
            self@.has_selected_column() ==> r is Some && r.unwrap()@
                == self@.selected_column_view(),
            !self@.has_selected_column() ==> r is None,
    {
        self.projects[self.current_project].board.get_column(self.selected_column)
    }

    /// The selected task, or `None` if the selection points at none.
    pub fn current_task(&self) -> (r: Option<&Task>)
        requires
            self.wf(),
        ensures
            self@.has_selected_task() ==> r is Some && r.unwrap()@ == self@.selected_task(),
            !self@.has_selected_task() ==> r is None,
    {
        match self.current_column() {
            Some(column) => {
                if self.selected_index < column.tasks.len() {
                    Some(&column.tasks[self.selected_index])
                } else {
                    None
                }
            },
            None => None,
        }
    }

    /// The number of tasks in the selected column; zero if there is none.
    fn column_len(&self) -> (n: usize)
        requires
            self.wf(),
        ensures
            n == self@.column_len(),
    {
        self.projects[self.current_project].board.task_count(self.selected_column)
    }

    /// Whether there is a task at the selection.
    fn has_selected_task(&self) -> (r: bool)
        requires
            self.wf(),
        ensures
            r == self@.has_selected_task(),
    {
        self.projects[self.current_project].board.has_task(
            self.selected_column,
            self.selected_index,
        )
    }

    // ---- saving ----
    /// Requests a save of the collection.
    fn save(&mut self)
        ensures
            final(self)@ == old(self)@.saved(),
    {
        self.save_pending = true;
    }

    /// Returns whether a save is due and clears the request. The caller
    /// writes the collection out when the answer is `true`.
    pub fn take_save_request(&mut self) -> (due: bool)
        ensures
            due == old(self)@.save_pending,
            final(self)@ == old(self)@.save_taken(),
    {
        let due = self.save_pending;
        self.save_pending = false;
        due
    }

    // ---- navigation ----
    /// Moves the selection one task up.
    pub fn move_up(&mut self)
        requires
            old(self).wf(),
        ensures
            final(self).wf(),
            final(self)@ == old(self)@.move_up(),
    {
        if self.selected_index > 0 {
            self.selected_index -= 1;
        }
    }

    /// Moves the selection one task down.
    pub fn move_down(&mut self)
        requires
            old(self).wf(),
        ensures
            final(self).wf(),
            final(self)@ == old(self)@.move_down(),
    {
        let column_len = self.column_len();
        if column_len > 0 && self.selected_index < column_len - 1 {
            self.selected_index += 1;
        }
    }

    /// Moves the selection one column to the left.
    pub fn move_left(&mut self)
        requires
            old(self).wf(),
        ensures
            final(self).wf(),
            final(self)@ == old(self)@.move_left(),
    {
        if self.selected_column > 0 {
            self.selected_column -= 1;
            self.clamp_selection();
        }
    }

    /// Moves the selection one column to the right.
    pub fn move_right(&mut self)
        requires
            old(self).wf(),
        ensures
            final(self).wf(),
            final(self)@ == old(self)@.move_right(),
    {
        if self.selected_column < self.board().columns.len() - 1 {
            self.selected_column += 1;
            self.clamp_selection();
        }
    }

    /// Brings the task index back into the selected column.
    pub fn clamp_selection(&mut self)
        requires
            old(self).wf(),
        ensures
            final(self).wf(),
            final(self)@ == old(self)@.clamp_selection(),
    {
        let column_len = self.column_len();
        if column_len == 0 {
            self.selected_index = 0;
            self.scroll_offset = 0;
        } else if self.selected_index >= column_len {
            self.selected_index = column_len - 1;
        }
    }

    /// Moves the window of drawn tasks so that the selection is inside it.
    pub fn update_scroll(&mut self)
        requires
            old(self).wf(),
        ensures
            final(self).wf(),
            final(self)@ == old(self)@.update_scroll(),
    {
        if self.visible_items == 0 {
            return ;
        }
        let column_len = self.column_len();
        let max_scroll = if column_len > self.visible_items {
            column_len - self.visible_items
        } else {
            0
        };
        // scroll down if the selection is below the window
        if self.selected_index >= self.scroll_offset && self.selected_index - self.scroll_offset
            >= self.visible_items {
            self.scroll_offset = self.selected_index - self.visible_items + 1;
        }
        // scroll up if the selection is above the window
        if self.selected_index < self.scroll_offset {
            self.scroll_offset = self.selected_index;
        }
        // never scroll past the end
        if self.scroll_offset > max_scroll {
            self.scroll_offset = max_scroll;
        }
    }

    /// Records how many cards fit into a viewport of `area_height` rows.
    pub fn set_visible_items(&mut self, area_height: u16, card_height: u16, card_spacing: u16)
        requires
            old(self).wf(),
        ensures
            final(self).wf(),
            final(self)@ == old(self)@.set_visible_items(
                area_height as int,
                card_height as int,
                card_spacing as int,
            ),
    {
        let stride: usize = card_height as usize + card_spacing as usize;
        if stride > 0 {
            let room: usize = area_height as usize + card_spacing as usize;
            self.visible_items = room / stride;
        }
    }

    // ---- tasks ----
    /// Moves the selected task to the end of the column at `to`, if there is
    /// such a task and such a column.
    fn move_task_to(&mut self, to: usize)
        requires
            old(self).wf(),
        ensures
            final(self).wf(),
            final(self)@ == old(self)@.move_task_to(to as int),
    {
        let from = self.selected_column;
        let idx = self.selected_index;
        if self.has_selected_task() && to < self.board().columns.len() {
            let board = self.board_mut();
            board.move_task(from, idx, to);
            self.clamp_selection();
            self.save();
        }
    }

    /// Moves the selected task to the end of the next column. Does nothing
    /// in the last column or without a selected task.
    pub fn move_task_forward(&mut self)
        requires
            old(self).wf(),
        ensures
            final(self).wf(),
            final(self)@ == old(self)@.move_task_forward(),
    {
        if self.selected_column < self.board().columns.len() {
            self.move_task_to(self.selected_column + 1);
        }
    }

    /// Moves the selected task to the end of the previous column. Does
    /// nothing in the first column or without a selected task.
    pub fn move_task_backward(&mut self)
        requires
            old(self).wf(),
        ensures
            final(self).wf(),
            final(self)@ == old(self)@.move_task_backward(),
    {
        if self.selected_column > 0 {
            self.move_task_to(self.selected_column - 1);
        }
    }

    /// Deletes the selected task, if there is one.
    pub fn delete_task(&mut self)
        requires
            old(self).wf(),
        ensures
            final(self).wf(),
            final(self)@ == old(self)@.delete_task(),
    {
        let col = self.selected_column;
        let idx = self.selected_index;
        if self.has_selected_task() {
            let board = self.board_mut();
            let _ = board.take_task(col, idx);
            self.clamp_selection();
            self.save();
        }
    }

    /// Removes the tag at `tag_index` from the selected task, if there is
    /// such a tag.
    pub fn remove_tag(&mut self, tag_index: usize)
        requires
            old(self).wf(),
        ensures
            final(self).wf(),
            final(self)@ == old(self)@.remove_tag(tag_index as int),
    {
        let col = self.selected_column;
        let idx = self.selected_index;
        let has_tag = match self.current_task() {
            Some(task) => tag_index < task.tags.len(),
            None => false,
        };
        if has_tag {
            let board = self.board_mut();
            let task = board.task_mut(col, idx);
            task.remove_tag(tag_index);
            self.save();
        }
    }

    // ---- columns ----
    /// Enters the mode that reads the name of a new column.
    pub fn start_adding_column(&mut self)
        requires
            old(self).wf(),
        ensures
            final(self).wf(),
            final(self)@ == old(self)@.start_adding_column(),
    {
        self.input_mode = InputMode::AddingColumn;
        self.input_buffer = String::new();
    }

    /// Enters the mode that edits the name of the selected column, starting
    /// from its current name.
    pub fn start_renaming_column(&mut self)
        requires
            old(self).wf(),
        ensures
            final(self).wf(),
            final(self)@ == old(self)@.start_renaming_column(),
    {
        match self.current_column() {
            Some(column) => {
                let name = column.name.clone();
                self.input_buffer = name;
                self.input_mode = InputMode::RenamingColumn;
            },
            None => {},
        }
    }

    /// Deletes the selected column if it is empty and not the only one.
    pub fn delete_column(&mut self)
        requires
            old(self).wf(),
        ensures
            final(self).wf(),
            final(self)@ == old(self)@.delete_column(),
    {
        let board_len = self.board().columns.len();
        if board_len <= 1 {
            return ;
        }
        let is_empty = match self.current_column() {
            Some(column) => column.tasks.len() == 0,
            None => false,
        };
        if is_empty {
            let col = self.selected_column;
            let board = self.board_mut();
            board.remove_column(col);
            let remaining = self.board().columns.len();
            if self.selected_column >= remaining {
                self.selected_column = remaining - 1;
            }
            self.clamp_selection();
            self.save();
        }
    }

    /// Exchanges the selected column with its left neighbour.
    pub fn move_column_left(&mut self)
        requires
            old(self).wf(),
        ensures
            final(self).wf(),
            final(self)@ == old(self)@.move_column_left(),
    {
        let col = self.selected_column;
        if col > 0 && col < self.board().columns.len() {
            let board = self.board_mut();
            board.swap_with_next(col - 1);
            self.selected_column -= 1;
            self.save();
        }
    }

    /// Exchanges the selected column with its right neighbour.
    pub fn move_column_right(&mut self)
        requires
            old(self).wf(),
        ensures
            final(self).wf(),
            final(self)@ == old(self)@.move_column_right(),
    {
        let col = self.selected_column;
        if col < self.board().columns.len() - 1 {
            let board = self.board_mut();
            board.swap_with_next(col);
            self.selected_column += 1;
            self.save();
        }
    }

    // ---- modes ----
    /// Enters the mode that reads the title of a new task.
    pub fn start_adding_task(&mut self)
        requires
            old(self).wf(),
        ensures
            final(self).wf(),
            final(self)@ == old(self)@.start_adding_task(),
    {
        self.input_mode = InputMode::AddingTask;
        self.input_buffer = String::new();
    }

    /// Enters the mode that reads a tag for the selected task. Without a
    /// selected task the mode cannot be entered.
    pub fn start_adding_tag(&mut self)
        requires
            old(self).wf(),
        ensures
            final(self).wf(),
            final(self)@ == old(self)@.start_adding_tag(),
    {
        if self.has_selected_task() {
            self.input_mode = InputMode::AddingTag;
            self.input_buffer = String::new();
        }
    }

    /// Abandons the input. Title and description editing return to the task
    /// view, every other mode to the board. No project changes.
    pub fn cancel_input(&mut self)
        requires
            old(self).wf(),
        ensures
            final(self).wf(),
            final(self)@ == old(self)@.cancel_input(),
    {
        match self.input_mode {
            InputMode::EditingTitle | InputMode::EditingDescription => {
                self.input_mode = InputMode::ViewingTask;
            },
            _ => {
                self.input_mode = InputMode::Normal;
            },
        }
        self.input_buffer = String::new();
    }

    /// Appends a character to the input.
    pub fn input_char(&mut self, c: char)
        requires
            old(self).wf(),
        ensures
            final(self).wf(),
            final(self)@ == old(self)@.input_char(c),
    {
        self.input_buffer.push(c);
    }

    /// Deletes the last character of the input, if there is one.
    pub fn input_backspace(&mut self)
        requires
            old(self).wf(),
        ensures
            final(self).wf(),
            final(self)@ == old(self)@.input_backspace(),
    {
        let _ = self.input_buffer.pop();
    }

    /// Opens the detail view on the selected task.
    pub fn open_task(&mut self)
        requires
            old(self).wf(),
        ensures
            final(self).wf(),
            final(self)@ == old(self)@.open_task(),
    {
        if self.has_selected_task() {
            self.input_mode = InputMode::ViewingTask;
            self.focused_field = TaskField::Title;
        }
    }

    /// Moves the focus to the next field of the task detail view.
    pub fn next_field(&mut self)
        requires
            old(self).wf(),
        ensures
            final(self).wf(),
            final(self)@ == old(self)@.next_field(),
    {
        self.focused_field = self.focused_field.next();
    }

    /// Enters the mode that edits the title of the selected task, starting
    /// from its current title.
    pub fn start_editing_title(&mut self)
        requires
            old(self).wf(),
        ensures
            final(self).wf(),
            final(self)@ == old(self)@.start_editing_title(),
    {
        match self.current_task() {
            Some(task) => {
                let title = task.title.clone();
                self.input_buffer = title;
                self.input_mode = InputMode::EditingTitle;
            },
            None => {},
        }
    }

    /// Enters the mode that edits the description of the selected task,
    /// starting from its current description.
    pub fn start_editing_description(&mut self)
        requires
            old(self).wf(),
        ensures
            final(self).wf(),
            final(self)@ == old(self)@.start_editing_description(),
    {
        match self.current_task() {
            Some(task) => {
                let description = task.description.clone();
                self.input_buffer = description;
                self.input_mode = InputMode::EditingDescription;
            },
            None => {},
        }
    }

    /// Opens the help view.
    pub fn show_help(&mut self)
        requires
            old(self).wf(),
        ensures
            final(self).wf(),
            final(self)@ == old(self)@.show_help(),
    {
        self.input_mode = InputMode::ViewingHelp;
    }

    /// Closes the detail, help or project view and returns to the board.
    pub fn close_view(&mut self)
        requires
            old(self).wf(),
        ensures
            final(self).wf(),
            final(self)@ == old(self)@.close_view(),
    {
        self.input_mode = InputMode::Normal;
        self.input_buffer = String::new();
    }

    // ---- submitting input ----
    /// Whether anything has been typed.
    fn has_input(&self) -> (r: bool)
        ensures
            r == (self@.input_buffer.len() > 0),
    {
        !self.input_buffer.as_str().is_empty()
    }

    /// Sets the mode and clears the input.
    fn leave_input(&mut self, mode: InputMode)
        ensures
            final(self)@ == old(self)@.leave_input(mode),
    {
        self.input_mode = mode;
        self.input_buffer = String::new();
    }

    /// Appends a task titled by the input to the selected column and
    /// selects it.
    fn submit_task(&mut self)
        requires
            old(self).wf(),
        ensures
            final(self).wf(),
            final(self)@ == old(self)@.submit_task(),
    {
        let col = self.selected_column;
        if self.has_input() && col < self.board().columns.len() {
            let task = Task::new(self.input_buffer.clone());
            let board = self.board_mut();
            board.push_task(col, task);
            // select the new task, the last of its column
            self.selected_index = self.column_len() - 1;
            self.update_scroll();
            self.save();
        }
    }

    /// Adds the input as a tag to the selected task.
    fn submit_tag(&mut self)
        requires
            old(self).wf(),
        ensures
            final(self).wf(),
            final(self)@ == old(self)@.submit_tag(),
    {
        let col = self.selected_column;
        let idx = self.selected_index;
        if self.has_input() && self.has_selected_task() {
            let tag = self.input_buffer.clone();
            let board = self.board_mut();
            board.task_mut(col, idx).add_tag(tag);
            self.save();
        }
    }

    /// Makes the input the title of the selected task.
    fn submit_title(&mut self)
        requires
            old(self).wf(),
        ensures
            final(self).wf(),
            final(self)@ == old(self)@.submit_title(),
    {
        let col = self.selected_column;
        let idx = self.selected_index;
        if self.has_input() && self.has_selected_task() {
            let title = self.input_buffer.clone();
            let board = self.board_mut();
            board.task_mut(col, idx).title = title;
            self.save();
        }
    }

    /// Makes the input the description of the selected task.
    fn submit_description(&mut self)
        requires
            old(self).wf(),
        ensures
            final(self).wf(),
            final(self)@ == old(self)@.submit_description(),
    {
        let col = self.selected_column;
        let idx = self.selected_index;
        if self.has_selected_task() {
            let description = self.input_buffer.clone();
            let board = self.board_mut();
            board.task_mut(col, idx).description = description;
            self.save();
        }
    }

    /// Appends a project named by the input and makes it the current one.
    fn submit_project(&mut self)
        requires
            old(self).wf(),
        ensures
            final(self).wf(),
            final(self)@ == old(self)@.submit_project(),
    {
        if self.has_input() {
            let project = Project::new(self.input_buffer.clone());
            let ghost before = self.projects;
            self.projects.push(project);
            proof {
                lemma_deep_push(before, self.projects, project);
            }
            self.current_project = self.projects.len() - 1;
            self.selected_project_index = self.current_project;
            self.save();
        }
    }

    /// Appends a column named by the input to the current board.
    fn submit_column(&mut self)
        requires
            old(self).wf(),
        ensures
            final(self).wf(),
            final(self)@ == old(self)@.submit_column(),
    {
        if self.has_input() {
            let name = self.input_buffer.clone();
            let id = slugify(name.as_str());
            let board = self.board_mut();
            board.push_column(BoardColumn::new(id, name));
            self.save();
        }
    }

    /// Makes the input the name of the selected column.
    fn submit_rename(&mut self)
        requires
            old(self).wf(),
        ensures
            final(self).wf(),
            final(self)@ == old(self)@.submit_rename(),
    {
        let col = self.selected_column;
        if self.has_input() && col < self.board().columns.len() {
            let name = self.input_buffer.clone();
            let board = self.board_mut();
            match board.get_column_mut(col) {
                Some(column) => {
                    column.name = name;
                },
                None => {},
            }
            self.save();
        }
    }

    /// Takes the input for what the mode says it is, then leaves the mode:
    /// a task title, a tag, a new title or description, a project name, a
    /// column name. Where the input is required and empty, or what it is
    /// meant for does not exist, nothing changes but the mode.
    pub fn submit_input(&mut self)
        requires
            old(self).wf(),
        ensures
            final(self).wf(),
            final(self)@ == old(self)@.submit_input(),
    {
        match self.input_mode {
            InputMode::AddingTask => {
                self.submit_task();
                self.leave_input(InputMode::Normal);
            },
            InputMode::AddingTag => {
                self.submit_tag();
                self.leave_input(InputMode::Normal);
            },
            InputMode::EditingTitle => {
                self.submit_title();
                self.leave_input(InputMode::ViewingTask);
            },
            InputMode::EditingDescription => {
                self.submit_description();
                self.leave_input(InputMode::ViewingTask);
            },
            InputMode::AddingProject => {
                self.submit_project();
                self.leave_input(InputMode::ProjectList);
            },
            InputMode::AddingColumn => {
                self.submit_column();
                self.leave_input(InputMode::Normal);
            },
            InputMode::RenamingColumn => {
                self.submit_rename();
                self.leave_input(InputMode::Normal);
            },
            InputMode::Normal | InputMode::ViewingTask | InputMode::ViewingHelp
            | InputMode::ProjectList => {
                self.leave_input(InputMode::Normal);
            },
        }
    }

    // ---- projects ----
    /// Opens the project list with the current project highlighted.
    pub fn open_project_list(&mut self)
        requires
            old(self).wf(),
        ensures
            final(self).wf(),
            final(self)@ == old(self)@.open_project_list(),
    {
        self.input_mode = InputMode::ProjectList;
        self.selected_project_index = self.current_project;
    }

    /// Makes the highlighted project the current one.
    pub fn select_project(&mut self)
        requires
            old(self).wf(),
        ensures
            final(self).wf(),
            final(self)@ == old(self)@.select_project(),
    {
        self.current_project = self.selected_project_index;
        self.input_mode = InputMode::Normal;
        self.selected_column = 0;
        self.selected_index = 0;
        self.scroll_offset = 0;
    }

    /// Moves the highlight one project up.
    pub fn move_project_up(&mut self)
        requires
            old(self).wf(),
        ensures
            final(self).wf(),
            final(self)@ == old(self)@.move_project_up(),
    {
        if self.selected_project_index > 0 {
            self.selected_project_index -= 1;
        }
    }

    /// Moves the highlight one project down.
    pub fn move_project_down(&mut self)
        requires
            old(self).wf(),
        ensures
            final(self).wf(),
            final(self)@ == old(self)@.move_project_down(),
    {
        if self.selected_project_index < self.projects.len() - 1 {
            self.selected_project_index += 1;
        }
    }

    /// Enters the mode that reads the name of a new project.
    pub fn start_adding_project(&mut self)
        requires
            old(self).wf(),
        ensures
            final(self).wf(),
            final(self)@ == old(self)@.start_adding_project(),
    {
        self.input_mode = InputMode::AddingProject;
        self.input_buffer = String::new();
    }

    /// Deletes the highlighted project unless it is the only one.
    pub fn delete_project(&mut self)
        requires
            old(self).wf(),
        ensures
            final(self).wf(),
            final(self)@ == old(self)@.delete_project(),
    {
        if self.projects.len() > 1 {
            let ghost before = self.projects;
            let _ = self.projects.remove(self.selected_project_index);
            proof {
                lemma_deep_remove(before, self.projects, self.selected_project_index as int);
            }
            if self.selected_project_index >= self.projects.len() {
                self.selected_project_index = self.projects.len() - 1;
            }
            if self.current_project >= self.projects.len() {
                self.current_project = self.projects.len() - 1;
            }
            self.save();
        }
    }
}

} // verus!
