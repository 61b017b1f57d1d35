//! Recovery of the project collection from what is on disk.
//!
//! Three layouts have existed. The current one holds a sequence of projects
//! whose boards have any number of columns. The one before it held a sequence
//! of projects whose boards had four fixed task lists. The oldest held a
//! single such board and no project at all. Reading and parsing the files is
//! the caller's part; given what each file yielded, this module decides which
//! collection to use and whether it has to be written back.

use crate::board::{
    lemma_deep_empty, lemma_deep_push, usable, Board, BoardView, Project, ProjectView, Task,
    TaskView,
};
use vstd::prelude::*;
use vstd::std_specs::convert::FromSpecImpl;

verus! {

/// The value of a [`LegacyBoard`].
pub struct LegacyBoardView {
    pub todo: Seq<TaskView>,
    pub in_progress: Seq<TaskView>,
    pub testing: Seq<TaskView>,
    pub done: Seq<TaskView>,
}

/// The value of a [`LegacyProject`].
pub struct LegacyProjectView {
    pub name: Seq<char>,
    pub board: LegacyBoardView,
}

impl LegacyBoardView {
    /// The same tasks on a board of the four canonical columns.
    pub open spec fn migrated(self) -> BoardView {
        BoardView::of_four(self.todo, self.in_progress, self.testing, self.done)
    }
}

impl LegacyProjectView {
    /// The same project with its board migrated.
    pub open spec fn migrated(self) -> ProjectView {
        ProjectView { name: self.name, board: self.board.migrated() }
    }
}

/// A board of the fixed four-list layout.
#[derive(Debug, Clone, PartialEq, Eq)]
pub struct LegacyBoard {
    pub todo: Vec<Task>,
    pub in_progress: Vec<Task>,
    pub testing: Vec<Task>,
    pub done: Vec<Task>,
}

impl View for LegacyBoard {
    type V = LegacyBoardView;

    open spec fn view(&self) -> LegacyBoardView {
        LegacyBoardView {
            todo: self.todo.deep_view(),
            in_progress: self.in_progress.deep_view(),
            testing: self.testing.deep_view(),
            done: self.done.deep_view(),
        }
    }
}

impl DeepView for LegacyBoard {
    type V = LegacyBoardView;

    open spec fn deep_view(&self) -> LegacyBoardView {
        self@
    }
}

/// A project whose board has the fixed four-list layout.
#[derive(Debug, Clone, PartialEq, Eq)]
pub struct LegacyProject {
    pub name: String,
    pub board: LegacyBoard,
}

impl View for LegacyProject {
    type V = LegacyProjectView;

    open spec fn view(&self) -> LegacyProjectView {
        LegacyProjectView { name: self.name@, board: self.board@ }
    }
}

impl DeepView for LegacyProject {
    type V = LegacyProjectView;

    open spec fn deep_view(&self) -> LegacyProjectView {
        self@
    }
}

impl From<LegacyBoard> for Board {
    /// Puts the four task lists onto the four canonical columns.
    fn from(legacy_board: LegacyBoard) -> (board: Board)
        ensures
            board@ == legacy_board@.migrated(),
            board@.wf(),
    {
        Board::of_four(
            legacy_board.todo,
            legacy_board.in_progress,
            legacy_board.testing,
            legacy_board.done,
        )
    }
}

/// What `Board::from` returns is stated on the function itself, over
/// values: a `Board` holds vectors, which no specification can build, so
/// there is no `from_spec` to obey.
impl FromSpecImpl<LegacyBoard> for Board {
    open spec fn obeys_from_spec() -> bool {
        false
    }

    open spec fn from_spec(v: LegacyBoard) -> Board {
        arbitrary()
    }
}

impl From<LegacyProject> for Project {
    /// Keeps the name and migrates the board.
    fn from(legacy_project: LegacyProject) -> (project: Project)
        ensures
            project@ == legacy_project@.migrated(),
            project@.board.wf(),
    {
        Project { name: legacy_project.name, board: Board::from(legacy_project.board) }
    }
}

/// As for `Board`: what `Project::from` returns is stated on the function
/// itself.
impl FromSpecImpl<LegacyProject> for Project {
    open spec fn obeys_from_spec() -> bool {
        false
    }

    open spec fn from_spec(v: LegacyProject) -> Project {
        arbitrary()
    }
}

/// The single project a board without a project is wrapped in, and the one
/// a first start begins with.
pub open spec fn default_name() -> Seq<char> {
    "Default"@
}

/// One of the three files a load looks at, newest layout first.
#[derive(Clone, Copy, Debug, PartialEq, Eq, Structural)]
pub enum Source {
    /// The file of the current layout.
    Current,
    /// The file of projects with four-list boards.
    LegacyProjects,
    /// The file of a single four-list board.
    LegacyBoard,
}

impl Source {
    /// The product name whose configuration directory holds the file. The
    /// two older files lie under the previous product name.
    pub open spec fn spec_product(self) -> Seq<char> {
        match self {
            Source::Current => "tui-kanban"@,
            Source::LegacyProjects | Source::LegacyBoard => "omarchy-kanban"@,
        }
    }

    /// The name of the file within the configuration directory.
    pub open spec fn spec_file_name(self) -> Seq<char> {
        match self {
            Source::Current | Source::LegacyProjects => "projects.json"@,
            Source::LegacyBoard => "board.json"@,
        }
    }

    /// The name of the file in the working directory, used where the
    /// platform has no configuration directory.
    pub open spec fn spec_fallback_file_name(self) -> Seq<char> {
        match self {
            Source::Current => "projects.json"@,
            Source::LegacyProjects => "old_projects.json"@,
            Source::LegacyBoard => "board.json"@,
        }
    }

    /// The product name whose configuration directory holds the file.
    pub fn product(self) -> (r: &'static str)
        ensures
            r@ == self.spec_product(),
    {
        match self {
            Source::Current => "tui-kanban",
            Source::LegacyProjects | Source::LegacyBoard => "omarchy-kanban",
        }
    }

    /// The name of the file within the configuration directory.
    pub fn file_name(self) -> (r: &'static str)
        ensures
            r@ == self.spec_file_name(),
    {
        match self {
            Source::Current | Source::LegacyProjects => "projects.json",
            Source::LegacyBoard => "board.json",
        }
    }

    /// The name of the file where there is no configuration directory.
    pub fn fallback_file_name(self) -> (r: &'static str)
        ensures
            r@ == self.spec_fallback_file_name(),
    {
        match self {
            Source::Current => "projects.json",
            Source::LegacyProjects => "old_projects.json",
            Source::LegacyBoard => "board.json",
        }
    }
}

/// Where a loaded collection came from.
#[derive(Clone, Copy, Debug, PartialEq, Eq, Structural)]
pub enum Origin {
    /// The file of the current layout.
    Current,
    /// The file of projects with four-list boards.
    LegacyProjects,
    /// The file of a single four-list board.
    LegacyBoard,
    /// No file gave a collection.
    Fresh,
}

impl Origin {
    /// A migrated collection is written back in the current layout, so that
    /// the next load finds it there.
    pub open spec fn spec_needs_write_back(self) -> bool {
        self == Origin::LegacyProjects || self == Origin::LegacyBoard
    }

    /// Whether the collection has to be written back in the current layout.
    pub fn needs_write_back(self) -> (r: bool)
        ensures
            r == self.spec_needs_write_back(),
    {
        match self {
            Origin::Current => false,
            Origin::LegacyProjects => true,
            Origin::LegacyBoard => true,
            Origin::Fresh => false,
        }
    }
}

/// The outcome of a load.
#[derive(Debug, Clone, PartialEq, Eq)]
pub struct Loaded {
    pub projects: Vec<Project>,
    pub origin: Origin,
}

/// The value of a [`Loaded`].
pub struct LoadedView {
    pub projects: Seq<ProjectView>,
    pub origin: Origin,
}

impl View for Loaded {
    type V = LoadedView;

    open spec fn view(&self) -> LoadedView {
        LoadedView { projects: self.projects.deep_view(), origin: self.origin }
    }
}

/// The collection of the current layout, if the file gave a usable one.
pub open spec fn accepted(current: Option<Seq<ProjectView>>) -> Option<Seq<ProjectView>> {
    match current {
        Some(projects) => if usable(projects) {
            Some(projects)
        } else {
            None
        },
        None => None,
    }
}

/// Every legacy project migrated, in order.
pub open spec fn migrated_projects(legacy: Seq<LegacyProjectView>) -> Seq<ProjectView> {
    legacy.map_values(|p: LegacyProjectView| p.migrated())
}

/// The one-project collection a lone legacy board becomes.
pub open spec fn migrated_board(legacy: LegacyBoardView) -> Seq<ProjectView> {
    seq![ProjectView { name: default_name(), board: legacy.migrated() }]
}

/// The collection of a first start.
pub open spec fn fresh_projects() -> Seq<ProjectView> {
    seq![ProjectView::named(default_name())]
}

/// The load cascade. The sources are tried from the newest layout to the
/// oldest, and the first that yields a usable collection wins; `None` stands
/// for a file that is missing or does not parse. A parsed collection that is
/// not usable counts as if the file were missing. When no source yields
/// anything, the result is a single fresh project.
pub open spec fn resolve(
    current: Option<Seq<ProjectView>>,
    legacy_projects: Option<Seq<LegacyProjectView>>,
    legacy_board: Option<LegacyBoardView>,
) -> LoadedView {
    if accepted(current) is Some {
        LoadedView { projects: accepted(current)->0, origin: Origin::Current }
    } else if legacy_projects is Some && legacy_projects->0.len() > 0 {
        LoadedView {
            projects: migrated_projects(legacy_projects->0),
            origin: Origin::LegacyProjects,
        }
    } else if legacy_board is Some {
        LoadedView { projects: migrated_board(legacy_board->0), origin: Origin::LegacyBoard }
    } else {
        LoadedView { projects: fresh_projects(), origin: Origin::Fresh }
    }
}

/// Whether the collection holds a project and every board holds a column.
pub fn is_usable(projects: &Vec<Project>) -> (r: bool)
    ensures
        r == usable(projects.deep_view()),
{
    if projects.len() == 0 {
        return false;
    }
    let mut i: usize = 0;
    while i < projects.len()
        invariant
            i <= projects.len(),
            forall|j: int| 0 <= j < i ==> (#[trigger] projects.deep_view()[j]).board.wf(),
        decreases projects.len() - i,
    {
        if projects[i].board.columns.len() == 0 {
            assert(!projects.deep_view()[i as int].board.wf());
            return false;
        }
        i += 1;
    }
    true
}

/// Accepts the collection of the current layout if it is usable.
pub fn accept_current(current: Option<Vec<Project>>) -> (r: Option<Vec<Project>>)
    ensures
        r.deep_view() == accepted(current.deep_view()),
{
    match current {
        Some(projects) => {
            if is_usable(&projects) {
                Some(projects)
            } else {
                None
            }
        },
        None => None,
    }
}

/// Migrates every legacy project, keeping their order.
pub fn migrate_projects(legacy: Vec<LegacyProject>) -> (r: Vec<Project>)
    ensures
        r.deep_view() == migrated_projects(legacy.deep_view()),
        legacy.len() > 0 ==> usable(r.deep_view()),
{
    let mut out: Vec<Project> = Vec::new();
    let ghost all = legacy.deep_view();
    proof {
        lemma_deep_empty(out);
    }
    for legacy_project in it: legacy
        invariant
            it.seq() == legacy@,
            all == legacy.deep_view(),
            out.len() == it.index(),
            out.deep_view() == migrated_projects(all.take(it.index() as int)),
            forall|j: int| 0 <= j < out.len() ==> (#[trigger] out.deep_view()[j]).board.wf(),
    {
        let ghost out_before = out;
        let ghost migrated_view = legacy_project@.migrated();
        let project = Project::from(legacy_project);
        out.push(project);
        proof {
            lemma_deep_push(out_before, out, project);
            assert(migrated_projects(all.take(out.len() as int)) =~= migrated_projects(
                all.take(out_before.len() as int),
            ).push(migrated_view));
        }
    }
    proof {
        assert(all.take(all.len() as int) =~= all);
    }
    out
}

/// Wraps a lone legacy board into a project named "Default".
pub fn migrate_board(legacy: LegacyBoard) -> (r: Vec<Project>)
    ensures
        r.deep_view() == migrated_board(legacy@),
        usable(r.deep_view()),
{
    let project = Project { name: "Default".to_owned(), board: Board::from(legacy) };
    let mut out: Vec<Project> = Vec::new();
    out.push(project);
    assert(out.deep_view() =~= migrated_board(legacy@));
    out
}

/// The collection of a first start: one project named "Default" with a
/// fresh board.
pub fn default_projects() -> (r: Vec<Project>)
    ensures
        r.deep_view() == fresh_projects(),
        usable(r.deep_view()),
{
    let project = Project::new("Default".to_owned());
    let mut out: Vec<Project> = Vec::new();
    out.push(project);
    assert(out.deep_view() =~= fresh_projects());
    out
}

/// Chooses the project collection to start with. Each argument is what one
/// file yielded: `None` if the file is missing, unreadable or does not
/// parse in its layout. The result always holds a project, and each of its
/// boards a column.
pub fn load_projects(
    current: Option<Vec<Project>>,
    legacy_projects: Option<Vec<LegacyProject>>,
    legacy_board: Option<LegacyBoard>,
) -> (loaded: Loaded)
    ensures
        loaded@ == resolve(
            current.deep_view(),
            legacy_projects.deep_view(),
            legacy_board.deep_view(),
        ),
        usable(loaded@.projects),
{
    match accept_current(current) {
        Some(projects) => {
            return Loaded { projects, origin: Origin::Current };
        },
        None => {},
    }
    match legacy_projects {
        Some(legacy) => {
            if legacy.len() > 0 {
                return Loaded { projects: migrate_projects(legacy), origin: Origin::LegacyProjects };
            }
        },
        None => {},
    }
    match legacy_board {
        Some(legacy) => {
            return Loaded { projects: migrate_board(legacy), origin: Origin::LegacyBoard };
        },
        None => {},
    }
    Loaded { projects: default_projects(), origin: Origin::Fresh }
}

} // verus!
