//! From key presses to intents. Which intent a key stands for depends on the
//! interaction mode: the table here is what makes a mutation legal in one
//! mode and unavailable in another.

use crate::app::App;
use crate::state::{AppView, InputMode, TaskField};
use vstd::prelude::*;

verus! {

/// A key press, reduced to what the board distinguishes.
#[derive(Clone, Copy, Debug, PartialEq, Eq, Structural)]
pub enum Key {
    Char(char),
    Enter,
    Esc,
    Backspace,
    Tab,
    Left,
    Right,
    Up,
    Down,
    /// Any other key.
    Other,
}

/// What the user wants done.
#[derive(Clone, Copy, Debug, PartialEq, Eq, Structural)]
pub enum Intent {
    /// Nothing; the key has no meaning in the mode.
    Ignore,
    /// Leave the application.
    Quit,
    MoveUp,
    MoveDown,
    MoveLeft,
    MoveRight,
    OpenTask,
    StartAddingTask,
    StartAddingTag,
    MoveTaskForward,
    MoveTaskBackward,
    DeleteTask,
    StartAddingColumn,
    StartRenamingColumn,
    DeleteColumn,
    MoveColumnLeft,
    MoveColumnRight,
    ShowHelp,
    CloseView,
    NextField,
    StartEditingTitle,
    StartEditingDescription,
    /// Remove the tag at this position from the selected task.
    RemoveTag(usize),
    /// Append this character to the input.
    Type(char),
    Backspace,
    Submit,
    Cancel,
    OpenProjectList,
    ProjectUp,
    ProjectDown,
    SelectProject,
    StartAddingProject,
    DeleteProject,
}

impl Intent {
    /// The intents that only move a selection.
    pub open spec fn is_navigation(self) -> bool {
        match self {
            Intent::MoveUp | Intent::MoveDown | Intent::MoveLeft | Intent::MoveRight
            | Intent::ProjectUp | Intent::ProjectDown => true,
            _ => false,
        }
    }
}

/// The digit keys 1 to 9 stand for the tag positions 0 to 8.
pub open spec fn tag_position(c: char) -> Option<usize> {
    if '1' <= c <= '9' {
        Some((c as u32 - '1' as u32) as usize)
    } else {
        None
    }
}

/// The intent of a key on the board.
pub open spec fn normal_intent(key: Key) -> Intent {
    match key {
        Key::Char(c) => if c == 'q' {
            Intent::Quit
        } else if c == 'h' {
            Intent::MoveLeft
        } else if c == 'j' {
            Intent::MoveDown
        } else if c == 'k' {
            Intent::MoveUp
        } else if c == 'l' {
            Intent::MoveRight
        } else if c == 'a' {
            Intent::StartAddingTask
        } else if c == 't' {
            Intent::StartAddingTag
        } else if c == 'm' {
            Intent::MoveTaskForward
        } else if c == 'n' {
            Intent::MoveTaskBackward
        } else if c == 'd' {
            Intent::DeleteTask
        } else if c == 'c' {
            Intent::StartAddingColumn
        } else if c == 'r' {
            Intent::StartRenamingColumn
        } else if c == 'x' {
            Intent::DeleteColumn
        } else if c == 'H' {
            Intent::MoveColumnLeft
        } else if c == 'L' {
            Intent::MoveColumnRight
        } else if c == '?' {
            Intent::ShowHelp
        } else {
            Intent::Ignore
        },
        Key::Left => Intent::MoveLeft,
        Key::Down => Intent::MoveDown,
        Key::Up => Intent::MoveUp,
        Key::Right => Intent::MoveRight,
        Key::Enter => Intent::OpenTask,
        _ => Intent::Ignore,
    }
}

/// The intent of a key while a line of text is typed.
pub open spec fn line_intent(key: Key) -> Intent {
    match key {
        Key::Enter => Intent::Submit,
        Key::Esc => Intent::Cancel,
        Key::Backspace => Intent::Backspace,
        Key::Char(c) => Intent::Type(c),
        _ => Intent::Ignore,
    }
}

/// The intent of a key while a description is typed. A description has
/// several lines, so Enter breaks the line and Esc keeps the text.
pub open spec fn description_intent(key: Key) -> Intent {
    match key {
        Key::Enter => Intent::Type('\n'),
        Key::Esc => Intent::Submit,
        Key::Backspace => Intent::Backspace,
        Key::Char(c) => Intent::Type(c),
        _ => Intent::Ignore,
    }
}

/// The intent of a key in the task detail view. Enter edits the field in
/// focus; tags are not edited but removed, by their number, while they are
/// in focus.
pub open spec fn detail_intent(focus: TaskField, key: Key) -> Intent {
    match key {
        Key::Esc => Intent::CloseView,
        Key::Tab => Intent::NextField,
        Key::Enter => match focus {
            TaskField::Title => Intent::StartEditingTitle,
            TaskField::Description => Intent::StartEditingDescription,
            TaskField::Tags => Intent::Ignore,
        },
        Key::Char(c) => if focus == TaskField::Tags && tag_position(c) is Some {
            Intent::RemoveTag(tag_position(c)->0)
        } else {
            Intent::Ignore
        },
        _ => Intent::Ignore,
    }
}

/// The intent of a key in the help view.
pub open spec fn help_intent(key: Key) -> Intent {
    match key {
        Key::Esc => Intent::CloseView,
        Key::Char(c) => if c == '?' {
            Intent::CloseView
        } else {
            Intent::Ignore
        },
        _ => Intent::Ignore,
    }
}

/// The intent of a key in the project list.
pub open spec fn project_list_intent(key: Key) -> Intent {
    match key {
        Key::Esc => Intent::CloseView,
        Key::Down => Intent::ProjectDown,
        Key::Up => Intent::ProjectUp,
        Key::Enter => Intent::SelectProject,
        Key::Char(c) => if c == 'j' {
            Intent::ProjectDown
        } else if c == 'k' {
            Intent::ProjectUp
        } else if c == 'a' {
            Intent::StartAddingProject
        } else if c == 'd' {
            Intent::DeleteProject
        } else {
            Intent::Ignore
        },
        _ => Intent::Ignore,
    }
}

/// The intent of a key, with or without Ctrl held, in a mode. Ctrl+P asks
/// for the project list; it is granted on the board and swallowed elsewhere.
pub open spec fn intent_of(mode: InputMode, focus: TaskField, key: Key, ctrl: bool) -> Intent {
    if ctrl && key == Key::Char('p') {
        if mode == InputMode::Normal {
            Intent::OpenProjectList
        } else {
            Intent::Ignore
        }
    } else {
        match mode {
            InputMode::Normal => normal_intent(key),
            InputMode::AddingTask | InputMode::AddingTag | InputMode::AddingColumn
            | InputMode::RenamingColumn | InputMode::EditingTitle
            | InputMode::AddingProject => line_intent(key),
            InputMode::EditingDescription => description_intent(key),
            InputMode::ViewingTask => detail_intent(focus, key),
            InputMode::ViewingHelp => help_intent(key),
            InputMode::ProjectList => project_list_intent(key),
        }
    }
}

impl AppView {
    /// The state after an intent. Moving the selection on the board also
    /// moves the window of drawn tasks along.
    pub open spec fn apply(self, intent: Intent) -> AppView {
        match intent {
            Intent::Ignore | Intent::Quit => self,
            Intent::MoveUp => self.move_up().update_scroll(),
            Intent::MoveDown => self.move_down().update_scroll(),
            Intent::MoveLeft => self.move_left().update_scroll(),
            Intent::MoveRight => self.move_right().update_scroll(),
            Intent::OpenTask => self.open_task(),
            Intent::StartAddingTask => self.start_adding_task(),
            Intent::StartAddingTag => self.start_adding_tag(),
            Intent::MoveTaskForward => self.move_task_forward(),
            Intent::MoveTaskBackward => self.move_task_backward(),
            Intent::DeleteTask => self.delete_task(),
            Intent::StartAddingColumn => self.start_adding_column(),
            Intent::StartRenamingColumn => self.start_renaming_column(),
            Intent::DeleteColumn => self.delete_column(),
            Intent::MoveColumnLeft => self.move_column_left(),
            Intent::MoveColumnRight => self.move_column_right(),
            Intent::ShowHelp => self.show_help(),
            Intent::CloseView => self.close_view(),
            Intent::NextField => self.next_field(),
            Intent::StartEditingTitle => self.start_editing_title(),
            Intent::StartEditingDescription => self.start_editing_description(),
            Intent::RemoveTag(index) => self.remove_tag(index as int),
            Intent::Type(c) => self.input_char(c),
            Intent::Backspace => self.input_backspace(),
            Intent::Submit => self.submit_input(),
            Intent::Cancel => self.cancel_input(),
            Intent::OpenProjectList => self.open_project_list(),
            Intent::ProjectUp => self.move_project_up(),
            Intent::ProjectDown => self.move_project_down(),
            Intent::SelectProject => self.select_project(),
            Intent::StartAddingProject => self.start_adding_project(),
            Intent::DeleteProject => self.delete_project(),
        }
    }

    /// The state after a sequence of intents, applied first to last.
    pub open spec fn apply_all(self, intents: Seq<Intent>) -> AppView
        decreases intents.len(),
    {
        if intents.len() == 0 {
            self
        } else {
            self.apply_all(intents.drop_last()).apply(intents.last())
        }
    }

    /// The intent of a key in this state.
    pub open spec fn intent_of(self, key: Key, ctrl: bool) -> Intent {
        intent_of(self.input_mode, self.focused_field, key, ctrl)
    }

    /// The state after a key press.
    pub open spec fn handle_key(self, key: Key, ctrl: bool) -> AppView {
        self.apply(self.intent_of(key, ctrl))
    }
}

/// The tag position a digit key stands for.
pub fn tag_position_of(c: char) -> (r: Option<usize>)
    ensures
        r == tag_position(c),
{
    if '1' <= c && c <= '9' {
        let position: u32 = c as u32 - '1' as u32;
        Some(position as usize)
    } else {
        None
    }
}

/// The intent of a key on the board.
fn normal_intent_of(key: Key) -> (r: Intent)
    ensures
        r == normal_intent(key),
{
    match key {
        Key::Char(c) => {
            if c == 'q' {
                Intent::Quit
            } else if c == 'h' {
                Intent::MoveLeft
            } else if c == 'j' {
                Intent::MoveDown
            } else if c == 'k' {
                Intent::MoveUp
            } else if c == 'l' {
                Intent::MoveRight
            } else if c == 'a' {
                Intent::StartAddingTask
            } else if c == 't' {
                Intent::StartAddingTag
            } else if c == 'm' {
                Intent::MoveTaskForward
            } else if c == 'n' {
                Intent::MoveTaskBackward
            } else if c == 'd' {
                Intent::DeleteTask
            } else if c == 'c' {
                Intent::StartAddingColumn
            } else if c == 'r' {
                Intent::StartRenamingColumn
            } else if c == 'x' {
                Intent::DeleteColumn
            } else if c == 'H' {
                Intent::MoveColumnLeft
            } else if c == 'L' {
                Intent::MoveColumnRight
            } else if c == '?' {
                Intent::ShowHelp
            } else {
                Intent::Ignore
            }
        },
        Key::Left => Intent::MoveLeft,
        Key::Down => Intent::MoveDown,
        Key::Up => Intent::MoveUp,
        Key::Right => Intent::MoveRight,
        Key::Enter => Intent::OpenTask,
        _ => Intent::Ignore,
    }
}

/// The intent of a key while a line of text is typed.
fn line_intent_of(key: Key) -> (r: Intent)
    ensures
        r == line_intent(key),
{
    match key {
        Key::Enter => Intent::Submit,
        Key::Esc => Intent::Cancel,
        Key::Backspace => Intent::Backspace,
        Key::Char(c) => Intent::Type(c),
        _ => Intent::Ignore,
    }
}

/// The intent of a key while a description is typed.
fn description_intent_of(key: Key) -> (r: Intent)
    ensures
        r == description_intent(key),
{
    match key {
        Key::Enter => Intent::Type('\n'),
        Key::Esc => Intent::Submit,
        Key::Backspace => Intent::Backspace,
        Key::Char(c) => Intent::Type(c),
        _ => Intent::Ignore,
    }
}

/// The intent of a key in the task detail view.
fn detail_intent_of(focus: TaskField, key: Key) -> (r: Intent)
    ensures
        r == detail_intent(focus, key),
{
    match key {
        Key::Esc => Intent::CloseView,
        Key::Tab => Intent::NextField,
        Key::Enter => match focus {
            TaskField::Title => Intent::StartEditingTitle,
            TaskField::Description => Intent::StartEditingDescription,
            TaskField::Tags => Intent::Ignore,
        },
        Key::Char(c) => {
            if focus == TaskField::Tags {
                match tag_position_of(c) {
                    Some(position) => Intent::RemoveTag(position),
                    None => Intent::Ignore,
                }
            } else {
                Intent::Ignore
            }
        },
        _ => Intent::Ignore,
    }
}

/// The intent of a key in the help view.
fn help_intent_of(key: Key) -> (r: Intent)
    ensures
        r == help_intent(key),
{
    match key {
        Key::Esc => Intent::CloseView,
        Key::Char(c) => {
            if c == '?' {
                Intent::CloseView
            } else {
                Intent::Ignore
            }
        },
        _ => Intent::Ignore,
    }
}

/// The intent of a key in the project list.
fn project_list_intent_of(key: Key) -> (r: Intent)
    ensures
        r == project_list_intent(key),
{
    match key {
        Key::Esc => Intent::CloseView,
        Key::Down => Intent::ProjectDown,
        Key::Up => Intent::ProjectUp,
        Key::Enter => Intent::SelectProject,
        Key::Char(c) => {
            if c == 'j' {
                Intent::ProjectDown
            } else if c == 'k' {
                Intent::ProjectUp
            } else if c == 'a' {
                Intent::StartAddingProject
            } else if c == 'd' {
                Intent::DeleteProject
            } else {
                Intent::Ignore
            }
        },
        _ => Intent::Ignore,
    }
}

/// The intent of a key, with or without Ctrl held, in a mode.
pub fn intent_for(mode: InputMode, focus: TaskField, key: Key, ctrl: bool) -> (r: Intent)
    ensures
        r == intent_of(mode, focus, key, ctrl),
{
    let asks_for_projects = match key {
        Key::Char(c) => ctrl && c == 'p',
        _ => false,
    };
    if asks_for_projects {
        match mode {
            InputMode::Normal => Intent::OpenProjectList,
            _ => Intent::Ignore,
        }
    } else {
        match mode {
            InputMode::Normal => normal_intent_of(key),
            InputMode::AddingTask | InputMode::AddingTag | InputMode::AddingColumn
            | InputMode::RenamingColumn | InputMode::EditingTitle
            | InputMode::AddingProject => line_intent_of(key),
            InputMode::EditingDescription => description_intent_of(key),
            InputMode::ViewingTask => detail_intent_of(focus, key),
            InputMode::ViewingHelp => help_intent_of(key),
            InputMode::ProjectList => project_list_intent_of(key),
        }
    }
}

impl App {
    /// Carries out an intent. Returns `true` if the intent is to quit.
    pub fn apply(&mut self, intent: Intent) -> (quit: bool)
        requires
            old(self).wf(),
        ensures
            final(self).wf(),
            final(self)@ == old(self)@.apply(intent),
            quit == (intent == Intent::Quit),
    {
        match intent {
            Intent::Ignore => {},
            Intent::Quit => {
                return true;
            },
            Intent::MoveUp => {
                self.move_up();
                self.update_scroll();
            },
            Intent::MoveDown => {
                self.move_down();
                self.update_scroll();
            },
            Intent::MoveLeft => {
                self.move_left();
                self.update_scroll();
            },
            Intent::MoveRight => {
                self.move_right();
                self.update_scroll();
            },
            Intent::OpenTask => self.open_task(),
            Intent::StartAddingTask => self.start_adding_task(),
            Intent::StartAddingTag => self.start_adding_tag(),
            Intent::MoveTaskForward => self.move_task_forward(),
            Intent::MoveTaskBackward => self.move_task_backward(),
            Intent::DeleteTask => self.delete_task(),
            Intent::StartAddingColumn => self.start_adding_column(),
            Intent::StartRenamingColumn => self.start_renaming_column(),
            Intent::DeleteColumn => self.delete_column(),
            Intent::MoveColumnLeft => self.move_column_left(),
            Intent::MoveColumnRight => self.move_column_right(),
            Intent::ShowHelp => self.show_help(),
            Intent::CloseView => self.close_view(),
            Intent::NextField => self.next_field(),
            Intent::StartEditingTitle => self.start_editing_title(),
            Intent::StartEditingDescription => self.start_editing_description(),
            Intent::RemoveTag(index) => self.remove_tag(index),
            Intent::Type(c) => self.input_char(c),
            Intent::Backspace => self.input_backspace(),
            Intent::Submit => self.submit_input(),
            Intent::Cancel => self.cancel_input(),
            Intent::OpenProjectList => self.open_project_list(),
            Intent::ProjectUp => self.move_project_up(),
            Intent::ProjectDown => self.move_project_down(),
            Intent::SelectProject => self.select_project(),
            Intent::StartAddingProject => self.start_adding_project(),
            Intent::DeleteProject => self.delete_project(),
        }
        false
    }

    /// Carries out what a key press means in the current mode. Returns
    /// `true` if it means to quit.
    pub fn handle_key(&mut self, key: Key, ctrl: bool) -> (quit: bool)
        requires
            old(self).wf(),
        ensures
            final(self).wf(),
            final(self)@ == old(self)@.handle_key(key, ctrl),
            quit == (old(self)@.intent_of(key, ctrl) == Intent::Quit),
    {
        let intent = intent_for(self.input_mode(), self.focused_field(), key, ctrl);
        self.apply(intent)
    }
}

} // verus!
