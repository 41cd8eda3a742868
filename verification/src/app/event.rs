//! What reaches the session and what it asks for: keys, events, commands.

use vstd::prelude::*;

verus! {

/// The overlays of the session. At most one is open at a time.
#[derive(Debug, Clone, Copy, PartialEq, Eq, Structural)]
pub enum Popup {
    Help,
    AddTaskFromUrl,
    AddTaskFromFile,
    DeleteConfirmation,
    ServerInfo,
    Error,
}

/// A key press, as far as the session tells keys apart.
#[derive(Debug, Clone, Copy, PartialEq, Eq, Structural)]
pub enum Key {
    Esc,
    Enter,
    Up,
    Down,
    Char(char),
    Other,
}

/// What the session is asked to do next.
#[derive(Debug, Clone, Copy, PartialEq, Eq, Structural)]
pub enum AppEvent {
    SelectNextRow,
    SelectPreviousRow,
    SelectNextRowFilePicker,
    SelectPreviousRowFilePicker,
    Help,
    ServerInfo,
    ShowAddTaskFromUrl,
    ShowAddTaskFromFile,
    ShowError,
    ShowDeleteConfirmation,
    AddTaskFromUrl,
    AddTaskFromFile,
    PauseResumeTask,
    DeleteTask,
    ManualRefresh,
    ScrollDown,
    ScrollUp,
    ScrollDownInfo,
    ScrollUpInfo,
    SelectNextTab,
    SelectPreviousTab,
    Quit,
}

/// What wakes the session up: the frame timer, the refresh timer, a key, or
/// an event that an earlier step queued.
#[derive(Debug, Clone, Copy, PartialEq, Eq, Structural)]
pub enum Event {
    Tick,
    AutoRefresh,
    Key(Key),
    App(AppEvent),
}

/// The outside work that a step asks for. The session does none of it: the
/// caller performs it and hands the result back.
#[derive(Debug, Clone, PartialEq, Eq)]
pub enum Command {
    /// Nothing to do.
    Idle,
    /// Queue the event.
    Queue(AppEvent),
    /// Redraw, fetch the task list, hand it to `refresh_tasks`, redraw.
    Refresh,
    /// Fetch the task list and hand it to `load_tasks`.
    Reload,
    /// Fetch the task list, hand it to `load_tasks`, then close the popup.
    ReloadAndClose,
    /// Read the clipboard and hand the text to `add_task_from_url`.
    ReadClipboard,
    /// Create a task from the link and hand the result to `url_task_created`.
    CreateFromUrl(String),
    /// Read the file and hand its content to `add_task_from_file`.
    ReadFile(String),
    /// Create a task from the file and hand the result to `file_task_created`.
    CreateFromFile(String, Vec<u8>),
    /// Pause the task and hand the result to `pause_finished`.
    Pause(String),
    /// Resume the task and hand the result to `pause_finished`.
    Resume(String),
    /// Delete the task and hand the result to `delete_finished`.
    Delete(String),
}

/// What a `Command` holds, with texts as plain characters.
pub enum CommandModel {
    Idle,
    Queue(AppEvent),
    Refresh,
    Reload,
    ReloadAndClose,
    ReadClipboard,
    CreateFromUrl(Seq<char>),
    ReadFile(Seq<char>),
    CreateFromFile(Seq<char>, Seq<u8>),
    Pause(Seq<char>),
    Resume(Seq<char>),
    Delete(Seq<char>),
}

impl View for Command {
    type V = CommandModel;

    open spec fn view(&self) -> CommandModel {
        match self {
            Command::Idle => CommandModel::Idle,
            Command::Queue(event) => CommandModel::Queue(*event),
            Command::Refresh => CommandModel::Refresh,
            Command::Reload => CommandModel::Reload,
            Command::ReloadAndClose => CommandModel::ReloadAndClose,
            Command::ReadClipboard => CommandModel::ReadClipboard,
            Command::CreateFromUrl(url) => CommandModel::CreateFromUrl(url@),
            Command::ReadFile(path) => CommandModel::ReadFile(path@),
            Command::CreateFromFile(path, data) => CommandModel::CreateFromFile(path@, data@),
            Command::Pause(id) => CommandModel::Pause(id@),
            Command::Resume(id) => CommandModel::Resume(id@),
            Command::Delete(id) => CommandModel::Delete(id@),
        }
    }
}

} // verus!
