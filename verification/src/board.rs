//! The board model: tasks, columns, boards and projects, each with the
//! mathematical value that contracts speak of.

use crate::text::same_text;
use vstd::prelude::*;

verus! {

/// The value of a [`Task`]: its texts as character sequences.
pub struct TaskView {
    pub title: Seq<char>,
    pub tags: Seq<Seq<char>>,
    pub description: Seq<char>,
}

/// The value of a [`BoardColumn`].
pub struct ColumnView {
    pub id: Seq<char>,
    pub name: Seq<char>,
    pub tasks: Seq<TaskView>,
}

/// The value of a [`Board`].
pub struct BoardView {
    pub columns: Seq<ColumnView>,
}

/// The value of a [`Project`].
pub struct ProjectView {
    pub name: Seq<char>,
    pub board: BoardView,
}

/// The colour class a tag is shown in.
#[derive(Clone, Copy, Debug, PartialEq, Eq, Structural)]
pub enum TagColor {
    Red,
    LightRed,
    Yellow,
    Green,
    LightGreen,
    Blue,
    LightBlue,
    Magenta,
    Cyan,
    LightCyan,
    LightYellow,
    White,
}

/// The colour class of a tag: eleven tags have one of their own, every
/// other tag is white.
pub open spec fn tag_color(tag: Seq<char>) -> TagColor {
    if tag == "urgent"@ {
        TagColor::Red
    } else if tag == "security"@ {
        TagColor::LightRed
    } else if tag == "bug"@ {
        TagColor::Yellow
    } else if tag == "feature"@ {
        TagColor::Green
    } else if tag == "performance"@ {
        TagColor::LightGreen
    } else if tag == "enhancement"@ {
        TagColor::Blue
    } else if tag == "User"@ {
        TagColor::LightBlue
    } else if tag == "Dev"@ {
        TagColor::Magenta
    } else if tag == "documentation"@ {
        TagColor::Cyan
    } else if tag == "design"@ {
        TagColor::LightCyan
    } else if tag == "refactor"@ {
        TagColor::LightYellow
    } else {
        TagColor::White
    }
}

impl TaskView {
    /// A task that has only a title.
    pub open spec fn titled(title: Seq<char>) -> TaskView {
        TaskView { title, tags: Seq::empty(), description: Seq::empty() }
    }

    /// The task with `tag` as its last tag, or unchanged if it has the tag
    /// already.
    pub open spec fn add_tag(self, tag: Seq<char>) -> TaskView {
        if self.tags.contains(tag) {
            self
        } else {
            TaskView { tags: self.tags.push(tag), ..self }
        }
    }

    /// The task without the tag at `index`, or unchanged if there is none.
    pub open spec fn remove_tag(self, index: int) -> TaskView {
        if 0 <= index < self.tags.len() {
            TaskView { tags: self.tags.remove(index), ..self }
        } else {
            self
        }
    }

    /// The task under another title.
    pub open spec fn with_title(self, title: Seq<char>) -> TaskView {
        TaskView { title, ..self }
    }

    /// The task with another description.
    pub open spec fn with_description(self, description: Seq<char>) -> TaskView {
        TaskView { description, ..self }
    }

    /// No tag occurs twice.
    pub open spec fn tags_distinct(self) -> bool {
        self.tags.no_duplicates()
    }

    /// The colour class of the whole task: that of the most pressing known
    /// tag it carries, white if it carries none.
    pub open spec fn color(self) -> TagColor {
        if self.tags.contains("urgent"@) {
            TagColor::Red
        } else if self.tags.contains("security"@) {
            TagColor::LightRed
        } else if self.tags.contains("bug"@) {
            TagColor::Yellow
        } else if self.tags.contains("feature"@) {
            TagColor::Green
        } else if self.tags.contains("performance"@) {
            TagColor::LightGreen
        } else if self.tags.contains("enhancement"@) {
            TagColor::Blue
        } else if self.tags.contains("User"@) {
            TagColor::LightBlue
        } else if self.tags.contains("Dev"@) {
            TagColor::Magenta
        } else if self.tags.contains("documentation"@) {
            TagColor::Cyan
        } else if self.tags.contains("design"@) {
            TagColor::LightCyan
        } else if self.tags.contains("refactor"@) {
            TagColor::LightYellow
        } else {
            TagColor::White
        }
    }
}

impl ColumnView {
    /// A column without tasks.
    pub open spec fn empty(id: Seq<char>, name: Seq<char>) -> ColumnView {
        ColumnView { id, name, tasks: Seq::empty() }
    }

    /// The column holding other tasks.
    pub open spec fn with_tasks(self, tasks: Seq<TaskView>) -> ColumnView {
        ColumnView { tasks, ..self }
    }

    /// The column under another name; its identifier stays.
    pub open spec fn with_name(self, name: Seq<char>) -> ColumnView {
        ColumnView { name, ..self }
    }
}

/// One of the four canonical columns, in board order.
#[derive(Clone, Copy, Debug, PartialEq, Eq, Structural)]
pub enum Column {
    Todo,
    InProgress,
    Testing,
    Done,
}

impl Column {
    /// The column to the right, if there is one.
    pub open spec fn spec_next(self) -> Option<Column> {
        match self {
            Column::Todo => Some(Column::InProgress),
            Column::InProgress => Some(Column::Testing),
            Column::Testing => Some(Column::Done),
            Column::Done => None,
        }
    }

    /// The column to the left, if there is one.
    pub open spec fn spec_prev(self) -> Option<Column> {
        match self {
            Column::Todo => None,
            Column::InProgress => Some(Column::Todo),
            Column::Testing => Some(Column::InProgress),
            Column::Done => Some(Column::Testing),
        }
    }

    /// The display name.
    pub open spec fn spec_name(self) -> Seq<char> {
        match self {
            Column::Todo => "To Do"@,
            Column::InProgress => "In Progress"@,
            Column::Testing => "Testing"@,
            Column::Done => "Done"@,
        }
    }

    /// The stable identifier.
    pub open spec fn spec_id(self) -> Seq<char> {
        match self {
            Column::Todo => "todo"@,
            Column::InProgress => "in_progress"@,
            Column::Testing => "testing"@,
            Column::Done => "done"@,
        }
    }

    /// The canonical column holding `tasks`.
    pub open spec fn holding(self, tasks: Seq<TaskView>) -> ColumnView {
        ColumnView { id: self.spec_id(), name: self.spec_name(), tasks }
    }

    /// Moves to the next column (right).
    pub fn next(self) -> (r: Option<Column>)
        ensures
            r == self.spec_next(),
    {
        match self {
            Column::Todo => Some(Column::InProgress),
            Column::InProgress => Some(Column::Testing),
            Column::Testing => Some(Column::Done),
            Column::Done => None,
        }
    }

    /// Moves to the previous column (left).
    pub fn prev(self) -> (r: Option<Column>)
        ensures
            r == self.spec_prev(),
    {
        match self {
            Column::Todo => None,
            Column::InProgress => Some(Column::Todo),
            Column::Testing => Some(Column::InProgress),
            Column::Done => Some(Column::Testing),
        }
    }

    /// The display name.
    pub fn name(self) -> (r: &'static str)
        ensures
            r@ == self.spec_name(),
    {
        match self {
            Column::Todo => "To Do",
            Column::InProgress => "In Progress",
            Column::Testing => "Testing",
            Column::Done => "Done",
        }
    }

    /// The stable identifier.
    pub fn id(self) -> (r: &'static str)
        ensures
            r@ == self.spec_id(),
    {
        match self {
            Column::Todo => "todo",
            Column::InProgress => "in_progress",
            Column::Testing => "testing",
            Column::Done => "done",
        }
    }
}

impl BoardView {
    /// A board of the four canonical columns holding the given tasks.
    pub open spec fn of_four(
        todo: Seq<TaskView>,
        in_progress: Seq<TaskView>,
        testing: Seq<TaskView>,
        done: Seq<TaskView>,
    ) -> BoardView {
        BoardView {
            columns: seq![
                Column::Todo.holding(todo),
                Column::InProgress.holding(in_progress),
                Column::Testing.holding(testing),
                Column::Done.holding(done),
            ],
        }
    }

    /// The board a new project starts with: the four canonical columns,
    /// all empty.
    pub open spec fn fresh() -> BoardView {
        BoardView::of_four(Seq::empty(), Seq::empty(), Seq::empty(), Seq::empty())
    }

    /// A board always has at least one column.
    pub open spec fn wf(self) -> bool {
        self.columns.len() > 0
    }

    /// There is a column at position `col`.
    pub open spec fn has_column(self, col: int) -> bool {
        0 <= col < self.columns.len()
    }

    /// There is a task at position `idx` of column `col`.
    pub open spec fn has_task(self, col: int, idx: int) -> bool {
        self.has_column(col) && 0 <= idx < self.columns[col].tasks.len()
    }

    /// The number of tasks in column `col`; zero if there is no such column.
    pub open spec fn task_count(self, col: int) -> nat {
        if self.has_column(col) {
            self.columns[col].tasks.len()
        } else {
            0
        }
    }

    /// The board with the column at position `col` replaced.
    pub open spec fn with_column(self, col: int, column: ColumnView) -> BoardView {
        BoardView { columns: self.columns.update(col, column) }
    }

    /// The board with the tasks of column `col` replaced.
    pub open spec fn with_tasks(self, col: int, tasks: Seq<TaskView>) -> BoardView {
        self.with_column(col, self.columns[col].with_tasks(tasks))
    }

    /// The board with `task` appended to column `col`.
    pub open spec fn push_task(self, col: int, task: TaskView) -> BoardView {
        self.with_tasks(col, self.columns[col].tasks.push(task))
    }

    /// The board without the task at position `idx` of column `col`.
    pub open spec fn remove_task(self, col: int, idx: int) -> BoardView {
        self.with_tasks(col, self.columns[col].tasks.remove(idx))
    }

    /// The board with the task at position `idx` of column `col` replaced.
    pub open spec fn set_task(self, col: int, idx: int, task: TaskView) -> BoardView {
        self.with_tasks(col, self.columns[col].tasks.update(idx, task))
    }

    /// The board after the task at position `idx` of column `from` has been
    /// taken out and appended to column `to`.
    pub open spec fn move_task(self, from: int, idx: int, to: int) -> BoardView {
        self.remove_task(from, idx).push_task(to, self.columns[from].tasks[idx])
    }

    /// The board with a new last column.
    pub open spec fn push_column(self, column: ColumnView) -> BoardView {
        BoardView { columns: self.columns.push(column) }
    }

    /// The board without column `col`.
    pub open spec fn remove_column(self, col: int) -> BoardView {
        BoardView { columns: self.columns.remove(col) }
    }

    /// The board with columns `a` and `b` exchanged.
    pub open spec fn swap_columns(self, a: int, b: int) -> BoardView {
        BoardView { columns: self.columns.update(a, self.columns[b]).update(b, self.columns[a]) }
    }

    /// The board with column `col` relabelled; its identifier stays.
    pub open spec fn rename_column(self, col: int, name: Seq<char>) -> BoardView {
        self.with_column(col, self.columns[col].with_name(name))
    }
}

/// A collection the application can work on: it holds a project, and every
/// board in it holds a column.
pub open spec fn usable(projects: Seq<ProjectView>) -> bool {
    &&& projects.len() > 0
    &&& forall|i: int| 0 <= i < projects.len() ==> (#[trigger] projects[i]).board.wf()
}

impl ProjectView {
    /// A project with a fresh board.
    pub open spec fn named(name: Seq<char>) -> ProjectView {
        ProjectView { name, board: BoardView::fresh() }
    }

    /// The project with another board.
    pub open spec fn with_board(self, board: BoardView) -> ProjectView {
        ProjectView { board, ..self }
    }
}

/// A unit of work: a title, an ordered set of tags and a description.
#[derive(Debug, Clone, PartialEq, Eq)]
pub struct Task {
    pub title: String,
    pub tags: Vec<String>,
    pub description: String,
}

impl View for Task {
    type V = TaskView;

    open spec fn view(&self) -> TaskView {
        TaskView {
            title: self.title@,
            tags: self.tags.deep_view(),
            description: self.description@,
        }
    }
}

impl DeepView for Task {
    type V = TaskView;

    open spec fn deep_view(&self) -> TaskView {
        self@
    }
}

/// A named, ordered list of tasks with a stable identifier. Position 0 is
/// the top of the column.
#[derive(Debug, Clone, PartialEq, Eq)]
pub struct BoardColumn {
    pub id: String,
    pub name: String,
    pub tasks: Vec<Task>,
}

impl View for BoardColumn {
    type V = ColumnView;

    open spec fn view(&self) -> ColumnView {
        ColumnView { id: self.id@, name: self.name@, tasks: self.tasks.deep_view() }
    }
}

impl DeepView for BoardColumn {
    type V = ColumnView;

    open spec fn deep_view(&self) -> ColumnView {
        self@
    }
}

/// An ordered collection of columns.
#[derive(Debug, Clone, PartialEq, Eq)]
pub struct Board {
    pub columns: Vec<BoardColumn>,
}

impl View for Board {
    type V = BoardView;

    open spec fn view(&self) -> BoardView {
        BoardView { columns: self.columns.deep_view() }
    }
}

impl DeepView for Board {
    type V = BoardView;

    open spec fn deep_view(&self) -> BoardView {
        self@
    }
}

/// A named board.
#[derive(Debug, Clone, PartialEq, Eq)]
pub struct Project {
    pub name: String,
    pub board: Board,
}

impl View for Project {
    type V = ProjectView;

    open spec fn view(&self) -> ProjectView {
        ProjectView { name: self.name@, board: self.board@ }
    }
}

impl DeepView for Project {
    type V = ProjectView;

    open spec fn deep_view(&self) -> ProjectView {
        self@
    }
}

/// An empty vector has the empty sequence as its value.
pub proof fn lemma_deep_empty<T: DeepView>(v: Vec<T>)
    requires
        v@.len() == 0,
    ensures
        v.deep_view() == Seq::<T::V>::empty(),
{
    assert(v.deep_view() =~= Seq::<T::V>::empty());
}

/// Appending to a vector appends the element's value to the vector's value.
pub proof fn lemma_deep_push<T: DeepView>(before: Vec<T>, after: Vec<T>, x: T)
    requires
        after@ == before@.push(x),
    ensures
        after.deep_view() == before.deep_view().push(x.deep_view()),
{
    assert(after.deep_view() =~= before.deep_view().push(x.deep_view()));
}

/// Removing from a vector removes the element's value from the vector's value.
pub proof fn lemma_deep_remove<T: DeepView>(before: Vec<T>, after: Vec<T>, i: int)
    requires
        0 <= i < before@.len(),
        after@ == before@.remove(i),
    ensures
        after.deep_view() == before.deep_view().remove(i),
{
    assert(after.deep_view() =~= before.deep_view().remove(i));
}

/// Replacing an element of a vector replaces its value in the vector's value.
pub proof fn lemma_deep_update<T: DeepView>(before: Vec<T>, after: Vec<T>, i: int, x: T)
    requires
        0 <= i < before@.len(),
        after@ == before@.update(i, x),
    ensures
        after.deep_view() == before.deep_view().update(i, x.deep_view()),
{
    assert(after.deep_view() =~= before.deep_view().update(i, x.deep_view()));
}

/// Whatever replaces element `i`, the vector's value changes at `i` alone.
/// This form can be stated before a mutable borrow of the element begins.
pub proof fn lemma_deep_update_any<T: DeepView>(before: Vec<T>, i: int)
    requires
        0 <= i < before@.len(),
    ensures
        forall|after: Vec<T>, x: T|
            #![trigger after.deep_view(), before@.update(i, x)]
            after@ == before@.update(i, x) ==> after.deep_view() == before.deep_view().update(
                i,
                x.deep_view(),
            ),
{
    assert forall|after: Vec<T>, x: T|
        #![trigger after.deep_view(), before@.update(i, x)]
        after@ == before@.update(i, x) implies after.deep_view() == before.deep_view().update(
        i,
        x.deep_view(),
    ) by {
        lemma_deep_update(before, after, i, x);
    }
}

/// Inserting into a vector inserts the element's value into the vector's value.
pub proof fn lemma_deep_insert<T: DeepView>(before: Vec<T>, after: Vec<T>, i: int, x: T)
    requires
        0 <= i <= before@.len(),
        after@ == before@.insert(i, x),
    ensures
        after.deep_view() == before.deep_view().insert(i, x.deep_view()),
{
    assert(after.deep_view() =~= before.deep_view().insert(i, x.deep_view()));
}

impl Task {
    /// Creates a task with the given title, no tags and no description.
    pub fn new(title: String) -> (task: Task)
        ensures
            task@ == TaskView::titled(title@),
    {
        let task = Task { title, tags: Vec::new(), description: String::new() };
        proof {
            lemma_deep_empty(task.tags);
        }
        task
    }

    /// Whether the task carries `tag`.
    pub fn has_tag(&self, tag: &str) -> (r: bool)
        ensures
            r == self@.tags.contains(tag@),
    {
        let mut i: usize = 0;
        while i < self.tags.len()
            invariant
                i <= self.tags.len(),
                forall|j: int| 0 <= j < i ==> self@.tags[j] != tag@,
            decreases self.tags.len() - i,
        {
            if same_text(self.tags[i].as_str(), tag) {
                assert(self@.tags[i as int] == tag@);
                return true;
            }
            i += 1;
        }
        false
    }

    /// Adds `tag` as the last tag unless the task carries it already.
    pub fn add_tag(&mut self, tag: String)
        ensures
            final(self)@ == old(self)@.add_tag(tag@),
    {
        if !self.has_tag(tag.as_str()) {
            let ghost before = self.tags;
            let ghost added = tag;
            self.tags.push(tag);
            proof {
                lemma_deep_push(before, self.tags, added);
            }
        }
    }

    /// Removes the tag at `index`; does nothing if there is none.
    pub fn remove_tag(&mut self, index: usize)
        ensures
            final(self)@ == old(self)@.remove_tag(index as int),
    {
        if index < self.tags.len() {
            let ghost before = self.tags;
            self.tags.remove(index);
            proof {
                lemma_deep_remove(before, self.tags, index as int);
            }
        }
    }

    /// The colour class of a single tag.
    pub fn get_tag_color(tag: &str) -> (color: TagColor)
        ensures
            color == tag_color(tag@),
    {
        if same_text(tag, "urgent") {
            TagColor::Red
        } else if same_text(tag, "security") {
            TagColor::LightRed
        } else if same_text(tag, "bug") {
            TagColor::Yellow
        } else if same_text(tag, "feature") {
            TagColor::Green
        } else if same_text(tag, "performance") {
            TagColor::LightGreen
        } else if same_text(tag, "enhancement") {
            TagColor::Blue
        } else if same_text(tag, "User") {
            TagColor::LightBlue
        } else if same_text(tag, "Dev") {
            TagColor::Magenta
        } else if same_text(tag, "documentation") {
            TagColor::Cyan
        } else if same_text(tag, "design") {
            TagColor::LightCyan
        } else if same_text(tag, "refactor") {
            TagColor::LightYellow
        } else {
            TagColor::White
        }
    }

    /// The colour class of the task as a whole.
    pub fn get_color(&self) -> (color: TagColor)
        ensures
            color == self@.color(),
    {
        if self.has_tag("urgent") {
            TagColor::Red
        } else if self.has_tag("security") {
            TagColor::LightRed
        } else if self.has_tag("bug") {
            TagColor::Yellow
        } else if self.has_tag("feature") {
            TagColor::Green
        } else if self.has_tag("performance") {
            TagColor::LightGreen
        } else if self.has_tag("enhancement") {
            TagColor::Blue
        } else if self.has_tag("User") {
            TagColor::LightBlue
        } else if self.has_tag("Dev") {
            TagColor::Magenta
        } else if self.has_tag("documentation") {
            TagColor::Cyan
        } else if self.has_tag("design") {
            TagColor::LightCyan
        } else if self.has_tag("refactor") {
            TagColor::LightYellow
        } else {
            TagColor::White
        }
    }
}

impl BoardColumn {
    /// Creates a column without tasks.
    pub fn new(id: String, name: String) -> (column: BoardColumn)
        ensures
            column@ == ColumnView::empty(id@, name@),
    {
        let column = BoardColumn { id, name, tasks: Vec::new() };
        proof {
            lemma_deep_empty(column.tasks);
        }
        column
    }

    /// Creates one of the four canonical columns, holding `tasks`.
    pub fn canonical(which: Column, tasks: Vec<Task>) -> (column: BoardColumn)
        ensures
            column@ == which.holding(tasks.deep_view()),
    {
        BoardColumn { id: which.id().to_owned(), name: which.name().to_owned(), tasks }
    }
}

impl Board {
    /// Creates the board a new project starts with.
    pub fn new() -> (board: Board)
        ensures
            board@ == BoardView::fresh(),
            board@.wf(),
    {
        let todo: Vec<Task> = Vec::new();
        let in_progress: Vec<Task> = Vec::new();
        let testing: Vec<Task> = Vec::new();
        let done: Vec<Task> = Vec::new();
        proof {
            lemma_deep_empty(todo);
            lemma_deep_empty(in_progress);
            lemma_deep_empty(testing);
            lemma_deep_empty(done);
        }
        Board::of_four(todo, in_progress, testing, done)
    }

    /// Creates a board of the four canonical columns holding the given tasks.
    pub fn of_four(
        todo: Vec<Task>,
        in_progress: Vec<Task>,
        testing: Vec<Task>,
        done: Vec<Task>,
    ) -> (board: Board)
        ensures
            board@ == BoardView::of_four(
                todo.deep_view(),
                in_progress.deep_view(),
                testing.deep_view(),
                done.deep_view(),
            ),
            board@.wf(),
    {
        let mut columns: Vec<BoardColumn> = Vec::new();
        columns.push(BoardColumn::canonical(Column::Todo, todo));
        columns.push(BoardColumn::canonical(Column::InProgress, in_progress));
        columns.push(BoardColumn::canonical(Column::Testing, testing));
        columns.push(BoardColumn::canonical(Column::Done, done));
        let board = Board { columns };
        assert(board@.columns =~= BoardView::of_four(
            todo.deep_view(),
            in_progress.deep_view(),
            testing.deep_view(),
            done.deep_view(),
        ).columns);
        board
    }

    /// The column at `index`, or `None` if the board has no such column.
    pub fn get_column(&self, index: usize) -> (r: Option<&BoardColumn>)
        ensures
            index < self.columns.len() ==> r == Some(&self.columns[index as int]),
            index >= self.columns.len() ==> r is None,
    {
        if index < self.columns.len() {
            Some(&self.columns[index])
        } else {
            None
        }
    }

    /// The column at `index` for modification, or `None` if the board has no
    /// such column. The board afterwards differs from the board before in
    /// that column only.
    pub fn get_column_mut(&mut self, index: usize) -> (r: Option<&mut BoardColumn>)
        ensures
            index < old(self).columns.len() ==> r is Some && *r.unwrap() == old(self).columns[index as int]
                && final(self).columns@ == old(self).columns@.update(
                index as int,
                *final(r.unwrap()),
            ),
            index < old(self).columns.len() ==> final(self)@ == old(self)@.with_column(
                index as int,
                final(r.unwrap())@,
            ),
            index >= old(self).columns.len() ==> r is None && *final(self) == *old(self),
    {
        if index < self.columns.len() {
            proof {
                lemma_deep_update_any(self.columns, index as int);
            }
            Some(&mut self.columns[index])
        } else {
            None
        }
    }

    /// The task at position `idx` of column `col`, for modification. The
    /// board afterwards differs from the board before in that task only.
    pub fn task_mut(&mut self, col: usize, idx: usize) -> (task: &mut Task)
        requires
            old(self)@.has_task(col as int, idx as int),
        ensures
            *task == old(self).columns[col as int].tasks[idx as int],
            final(self)@ == old(self)@.set_task(col as int, idx as int, final(task)@),
    {
        proof {
            lemma_deep_update_any(self.columns[col as int].tasks, idx as int);
            lemma_deep_update_any(self.columns, col as int);
        }
        let column = &mut self.columns[col];
        let task = &mut column.tasks[idx];
        task
    }

    /// Takes the task at position `idx` out of column `col`.
    pub(crate) fn take_task(&mut self, col: usize, idx: usize) -> (task: Task)
        requires
            old(self)@.has_task(col as int, idx as int),
        ensures
            task@ == old(self)@.columns[col as int].tasks[idx as int],
            final(self)@ == old(self)@.remove_task(col as int, idx as int),
    {
        let ghost before = *self;
        let task = self.columns[col].tasks.remove(idx);
        proof {
            lemma_deep_remove(before.columns[col as int].tasks, self.columns[col as int].tasks, idx as int);
            lemma_deep_update(before.columns, self.columns, col as int, self.columns[col as int]);
        }
        task
    }

    /// Appends `task` to column `col`.
    pub(crate) fn push_task(&mut self, col: usize, task: Task)
        requires
            old(self)@.has_column(col as int),
        ensures
            final(self)@ == old(self)@.push_task(col as int, task@),
    {
        let ghost before = *self;
        self.columns[col].tasks.push(task);
        proof {
            lemma_deep_push(before.columns[col as int].tasks, self.columns[col as int].tasks, task);
            lemma_deep_update(before.columns, self.columns, col as int, self.columns[col as int]);
        }
    }

    /// Takes the task at position `idx` out of column `from` and appends it
    /// to column `to`.
    pub(crate) fn move_task(&mut self, from: usize, idx: usize, to: usize)
        requires
            old(self)@.has_task(from as int, idx as int),
            old(self)@.has_column(to as int),
        ensures
            final(self)@ == old(self)@.move_task(from as int, idx as int, to as int),
    {
        let task = self.take_task(from, idx);
        self.push_task(to, task);
    }

    /// Appends a column.
    pub(crate) fn push_column(&mut self, column: BoardColumn)
        ensures
            final(self)@ == old(self)@.push_column(column@),
    {
        let ghost before = *self;
        self.columns.push(column);
        proof {
            lemma_deep_push(before.columns, self.columns, column);
        }
    }

    /// Removes column `col`.
    pub(crate) fn remove_column(&mut self, col: usize)
        requires
            old(self)@.has_column(col as int),
        ensures
            final(self)@ == old(self)@.remove_column(col as int),
    {
        let ghost before = *self;
        self.columns.remove(col);
        proof {
            lemma_deep_remove(before.columns, self.columns, col as int);
        }
    }

    /// Exchanges column `col` with its right neighbour.
    pub(crate) fn swap_with_next(&mut self, col: usize)
        requires
            old(self)@.has_column(col as int),
            old(self)@.has_column(col + 1),
        ensures
            final(self)@ == old(self)@.swap_columns(col as int, col + 1),
    {
        let ghost before = *self;
        assert(col + 1 < self.columns.len());
        let column = self.columns.remove(col);
        let ghost between = self.columns;
        self.columns.insert(col + 1, column);
        proof {
            lemma_deep_remove(before.columns, between, col as int);
            lemma_deep_insert(between, self.columns, col + 1, column);
            assert(self@.columns =~= before@.swap_columns(col as int, col + 1).columns);
        }
    }

    /// The number of tasks in column `index`; zero if there is no such column.
    pub fn task_count(&self, index: usize) -> (n: usize)
        ensures
            n == self@.task_count(index as int),
    {
        match self.get_column(index) {
            Some(column) => column.tasks.len(),
            None => 0,
        }
    }

    /// Whether there is a task at position `idx` of column `col`.
    pub fn has_task(&self, col: usize, idx: usize) -> (r: bool)
        ensures
            r == self@.has_task(col as int, idx as int),
    {
        idx < self.task_count(col)
    }
}

impl Project {
    /// Creates a project with a fresh board.
    pub fn new(name: String) -> (project: Project)
        ensures
            project@ == ProjectView::named(name@),
            project@.board.wf(),
    {
        Project { name, board: Board::new() }
    }
}

} // verus!
