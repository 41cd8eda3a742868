//! The state of the session as plain values, and how each key, event and
//! reply changes it.

use crate::api::error::TaskError;
use crate::api::reply::ConfigDataModel;
use crate::api::task::DownloadTaskModel;
use crate::app::event::{AppEvent, CommandModel, Key, Popup};
use crate::files::FileAttributesModel;
use crate::config::AppConfigModel;
use crate::ui::lines::{help_text, server_info_text, tab_text};
use crate::ui::clamped;
use vstd::prelude::*;

verus! {

/// The number of tabs of the detail panel.
pub const TAB_COUNT: usize = 5;

/// The position of the first task with the given id, if there is one.
pub open spec fn position_of(items: Seq<DownloadTaskModel>, id: Seq<char>) -> Option<int>
    decreases items.len(),
{
    if items.len() == 0 {
        None
    } else {
        match position_of(items.drop_last(), id) {
            Some(i) => Some(i),
            None => if items.last().id == id {
                Some(items.len() - 1)
            } else {
                None
            },
        }
    }
}

/// `position_of` gives a task with the id and nothing before it has the id;
/// it gives none only where no task has the id.
pub proof fn lemma_position_of(items: Seq<DownloadTaskModel>, id: Seq<char>)
    ensures
        match position_of(items, id) {
            Some(i) => 0 <= i < items.len() && items[i].id == id && forall|j: int|
                0 <= j < i ==> items[j].id != id,
            None => forall|j: int| 0 <= j < items.len() ==> items[j].id != id,
        },
    decreases items.len(),
{
    if items.len() > 0 {
        lemma_position_of(items.drop_last(), id);
        let front = items.drop_last();
        assert forall|j: int| 0 <= j < front.len() implies front[j] == items[j] by {}
    }
}

/// The id of the selected task, if a task is selected.
pub open spec fn selected_id(items: Seq<DownloadTaskModel>, selected: Option<usize>) -> Option<
    Seq<char>,
> {
    match selected {
        Some(i) => if i < items.len() {
            Some(items[i as int].id)
        } else {
            None
        },
        None => None,
    }
}

/// The selection after the task list was replaced. With no tasks there is
/// no selection. Otherwise the selection follows the task that was selected
/// to its new position, and goes to the top where that task is gone or none
/// was selected.
pub open spec fn selection_after(
    items: Seq<DownloadTaskModel>,
    selected: Option<usize>,
    fresh: Seq<DownloadTaskModel>,
) -> Option<usize> {
    if fresh.len() == 0 {
        None
    } else {
        match selected_id(items, selected) {
            Some(id) => match position_of(fresh, id) {
                Some(i) => Some(i as usize),
                None => Some(0),
            },
            None => Some(0),
        }
    }
}

/// The selection after a step down in a list of `len` rows: nothing in an
/// empty list, the top where nothing was selected, else one row further,
/// and never past the last row.
pub open spec fn moved_down(selected: Option<usize>, len: nat) -> Option<usize> {
    if len == 0 {
        None
    } else {
        match selected {
            None => Some(0),
            Some(i) => if i + 1 < len {
                Some((i + 1) as usize)
            } else {
                Some((len - 1) as usize)
            },
        }
    }
}

/// The selection after a step up in a list of `len` rows: nothing in an
/// empty list, the last row where nothing was selected, else one row back,
/// and never before the first row.
pub open spec fn moved_up(selected: Option<usize>, len: nat) -> Option<usize> {
    if len == 0 {
        None
    } else {
        match selected {
            None => Some((len - 1) as usize),
            Some(i) => if i == 0 {
                Some(0)
            } else if i - 1 < len {
                Some((i - 1) as usize)
            } else {
                Some((len - 1) as usize)
            },
        }
    }
}

/// The event that a key sends while no popup is open.
pub open spec fn global_key_event(key: Key) -> Option<AppEvent> {
    match key {
        Key::Esc => Some(AppEvent::Quit),
        Key::Down => Some(AppEvent::ScrollDownInfo),
        Key::Up => Some(AppEvent::ScrollUpInfo),
        Key::Char(c) => if c == 'q' {
            Some(AppEvent::Quit)
        } else if c == 'j' {
            Some(AppEvent::SelectNextRow)
        } else if c == 'k' {
            Some(AppEvent::SelectPreviousRow)
        } else if c == 'h' {
            Some(AppEvent::SelectPreviousTab)
        } else if c == 'l' {
            Some(AppEvent::SelectNextTab)
        } else if c == 'a' {
            Some(AppEvent::ShowAddTaskFromUrl)
        } else if c == 'A' {
            Some(AppEvent::ShowAddTaskFromFile)
        } else if c == 'i' {
            Some(AppEvent::ServerInfo)
        } else if c == 'p' {
            Some(AppEvent::PauseResumeTask)
        } else if c == 'r' {
            Some(AppEvent::ManualRefresh)
        } else if c == 'd' {
            Some(AppEvent::ShowDeleteConfirmation)
        } else if c == '?' {
            Some(AppEvent::Help)
        } else {
            None
        },
        _ => None,
    }
}

/// The event that a key sends while the given popup is open.
pub open spec fn popup_key_event(popup: Popup, key: Key) -> Option<AppEvent> {
    match key {
        Key::Down => if popup == Popup::AddTaskFromFile {
            Some(AppEvent::SelectNextRowFilePicker)
        } else {
            None
        },
        Key::Up => if popup == Popup::AddTaskFromFile {
            Some(AppEvent::SelectPreviousRowFilePicker)
        } else {
            None
        },
        Key::Enter => if popup == Popup::AddTaskFromUrl {
            Some(AppEvent::AddTaskFromUrl)
        } else if popup == Popup::AddTaskFromFile {
            Some(AppEvent::AddTaskFromFile)
        } else {
            None
        },
        Key::Char(c) => if c == 'j' {
            if popup == Popup::AddTaskFromFile {
                Some(AppEvent::SelectNextRowFilePicker)
            } else {
                Some(AppEvent::ScrollDown)
            }
        } else if c == 'k' {
            if popup == Popup::AddTaskFromFile {
                Some(AppEvent::SelectPreviousRowFilePicker)
            } else {
                Some(AppEvent::ScrollUp)
            }
        } else if (c == 'y' || c == 'Y') && popup == Popup::DeleteConfirmation {
            Some(AppEvent::DeleteTask)
        } else {
            None
        },
        _ => None,
    }
}

/// Whether a key closes the given popup.
pub open spec fn popup_key_closes(popup: Popup, key: Key) -> bool {
    match key {
        Key::Esc => true,
        Key::Enter => popup == Popup::AddTaskFromUrl,
        Key::Char(c) => c == 'q' || ((c == 'y' || c == 'Y' || c == 'n' || c == 'N') && popup
            == Popup::DeleteConfirmation),
        _ => false,
    }
}

/// The message shown when the task list could not be fetched.
pub open spec fn fetch_failed_text(error: Seq<char>) -> Seq<char> {
    "Failed to fetch tasks: "@ + error + "\n"@
}

/// The message shown when the settings could not be fetched.
pub open spec fn config_failed_text(error: Seq<char>) -> Seq<char> {
    "Failed to fetch server config:\n"@ + error
}

/// The message shown when a task could not be created.
pub open spec fn add_failed_text(error: TaskError) -> Seq<char> {
    "Failed to add task: "@ + error.display_text()
}

/// The message kept when a pause or a resume failed.
pub open spec fn pause_failed_text(resumed: bool, id: Seq<char>, error: Seq<char>) -> Seq<char> {
    (if resumed {
        "Resume"@
    } else {
        "Pause"@
    }) + " task failed for: "@ + id + "\nError: "@ + error
}

/// The message kept when a delete failed.
pub open spec fn delete_failed_text(id: Seq<char>, error: Seq<char>) -> Seq<char> {
    "Delete task failed for: "@ + id + "\nError: "@ + error
}

/// What a `PopupText` holds, with texts as plain characters.
pub struct PopupTextModel {
    pub title: Seq<char>,
    pub lines: Seq<Seq<char>>,
    pub is_error: bool,
}

/// The state of the session, with texts as plain characters.
pub struct AppModel {
    pub running: bool,
    pub refreshing_tasks: bool,
    pub selected_row: Option<usize>,
    pub selected_row_filepicker: Option<usize>,
    pub dir_list: Seq<FileAttributesModel>,
    pub popup_scroll_position: usize,
    pub info_panel_scroll_position: usize,
    pub selected_tab: usize,
    pub items: Seq<DownloadTaskModel>,
    pub error_message: Option<Seq<char>>,
    pub dsconfig: Option<ConfigDataModel>,
    pub active_popup: Option<Popup>,
}

impl AppModel {
    /// What holds of every state of the session: no task is selected while
    /// the list is empty, and a task of the list is selected otherwise; the
    /// file picker's selection, if any, is an entry of its list; the tab is
    /// one of the panel's tabs.
    pub open spec fn well_formed(self) -> bool {
        &&& self.items.len() == 0 ==> self.selected_row is None
        &&& self.items.len() > 0 ==> self.selected_row is Some && self.selected_row->0
            < self.items.len()
        &&& self.selected_row_filepicker is Some ==> self.selected_row_filepicker->0
            < self.dir_list.len()
        &&& self.selected_tab < TAB_COUNT
    }

    /// The state of a session that has just begun, with the given listing
    /// of the working directory.
    pub open spec fn initial(dir_list: Seq<FileAttributesModel>) -> AppModel {
        AppModel {
            running: true,
            refreshing_tasks: false,
            selected_row: None,
            selected_row_filepicker: None,
            dir_list,
            popup_scroll_position: 0,
            info_panel_scroll_position: 0,
            selected_tab: 0,
            items: Seq::empty(),
            error_message: None,
            dsconfig: None,
            active_popup: None,
        }
    }

    /// The state with no popup, and with nothing left of what a popup owned:
    /// its scroll offset, the file picker's selection, the error text.
    pub open spec fn closed(self) -> AppModel {
        AppModel {
            active_popup: None,
            error_message: None,
            popup_scroll_position: 0,
            selected_row_filepicker: None,
            ..self
        }
    }

    /// The state with the given popup open in place of any other.
    pub open spec fn showing(self, popup: Popup) -> AppModel {
        AppModel { active_popup: Some(popup), ..self }
    }

    /// The state with the error popup open on the given message.
    pub open spec fn failed(self, message: Seq<char>) -> AppModel {
        AppModel { error_message: Some(message), active_popup: Some(Popup::Error), ..self }
    }

    /// The state with the file picker open: where it had no selection and
    /// there are entries, the first entry is selected.
    pub open spec fn picking_file(self) -> AppModel {
        AppModel {
            active_popup: Some(Popup::AddTaskFromFile),
            selected_row_filepicker: if self.selected_row_filepicker is None && self.dir_list.len()
                > 0 {
                Some(0)
            } else {
                self.selected_row_filepicker
            },
            ..self
        }
    }

    /// The event that a key sends in this state.
    pub open spec fn key_event(self, key: Key) -> Option<AppEvent> {
        match self.active_popup {
            Some(popup) => popup_key_event(popup, key),
            None => global_key_event(key),
        }
    }

    /// The state after a key: a key that closes the open popup leaves no
    /// popup; any other key changes nothing by itself.
    pub open spec fn after_key(self, key: Key) -> AppModel {
        match self.active_popup {
            Some(popup) => if popup_key_closes(popup, key) {
                self.closed()
            } else {
                self
            },
            None => self,
        }
    }

    /// The state after the task list was fetched, or could not be: the list
    /// is replaced as a whole, or emptied on failure with the failure kept as
    /// the error text; the selection follows the selected task by its id.
    pub open spec fn loaded(self, result: Result<Seq<DownloadTaskModel>, Seq<char>>) -> AppModel {
        let fresh = match result {
            Ok(tasks) => tasks,
            Err(_) => Seq::empty(),
        };
        AppModel {
            items: fresh,
            error_message: match result {
                Ok(_) => self.error_message,
                Err(e) => Some(fetch_failed_text(e)),
            },
            selected_row: selection_after(self.items, self.selected_row, fresh),
            ..self
        }
    }

    /// The entry that the file picker points at, if it points at one.
    pub open spec fn picked_file(self) -> Option<FileAttributesModel> {
        match self.selected_row_filepicker {
            Some(i) => if i < self.dir_list.len() {
                Some(self.dir_list[i as int])
            } else {
                None
            },
            None => None,
        }
    }

    /// The selected task, if one is selected.
    pub open spec fn selected_task(self) -> Option<DownloadTaskModel> {
        match self.selected_row {
            Some(i) => if i < self.items.len() {
                Some(self.items[i as int])
            } else {
                None
            },
            None => None,
        }
    }

    /// The outside work that pausing or resuming the selected task needs:
    /// a paused task is resumed, any other is paused, and without a selected
    /// task nothing is attempted.
    pub open spec fn pause_command(self) -> CommandModel {
        match self.selected_task() {
            Some(task) => if task.status.label() == "paused"@ {
                CommandModel::Resume(task.id)
            } else {
                CommandModel::Pause(task.id)
            },
            None => CommandModel::Idle,
        }
    }

    /// The outside work that deleting the selected task needs; without a
    /// selected task nothing is attempted.
    pub open spec fn delete_command(self) -> CommandModel {
        match self.selected_task() {
            Some(task) => CommandModel::Delete(task.id),
            None => CommandModel::Idle,
        }
    }

    /// The lines of the detail panel: those of the active tab for the
    /// selected task, or a single empty line where no task is selected.
    pub open spec fn info_text(self) -> Seq<Seq<char>> {
        match self.selected_task() {
            Some(task) => tab_text(self.selected_tab, task.extended()),
            None => seq![Seq::<char>::empty()],
        }
    }

    /// The title and the lines of the open popup's body, where a popup with
    /// a body of text is drawn: the file picker shows a table instead, and
    /// the settings are drawn only once they were fetched.
    pub open spec fn popup_text(
        self,
        clipboard_text: Seq<char>,
        config_path: Seq<char>,
        config: AppConfigModel,
    ) -> Option<PopupTextModel> {
        match self.active_popup {
            None => None,
            Some(Popup::AddTaskFromFile) => None,
            Some(Popup::Help) => Some(
                PopupTextModel { title: " Help "@, lines: help_text(), is_error: false },
            ),
            Some(Popup::ServerInfo) => match self.dsconfig {
                Some(limits) => Some(
                    PopupTextModel {
                        title: " Server Info "@,
                        lines: server_info_text(config_path, config, limits),
                        is_error: false,
                    },
                ),
                None => None,
            },
            Some(Popup::AddTaskFromUrl) => Some(
                PopupTextModel {
                    title: " URL copied, press <Enter> to add task or close with <q> or ESC "@,
                    lines: seq![clipboard_text],
                    is_error: false,
                },
            ),
            Some(Popup::DeleteConfirmation) => Some(
                PopupTextModel {
                    title: " Delete task "@,
                    lines: seq![" Delete the selected task? <y> / <n>"@],
                    is_error: false,
                },
            ),
            Some(Popup::Error) => Some(
                PopupTextModel {
                    title: " Error "@,
                    lines: seq![
                        match self.error_message {
                            Some(message) => message,
                            None => Seq::empty(),
                        },
                    ],
                    is_error: true,
                },
            ),
        }
    }

    /// The number of lines of the open popup's body, where a popup with a
    /// body is drawn: the file picker has a line for each entry of its
    /// listing, and the settings are drawn only once they were fetched.
    pub open spec fn popup_lines(self) -> Option<nat> {
        match self.active_popup {
            None => None,
            Some(Popup::Help) => Some(14),
            Some(Popup::ServerInfo) => if self.dsconfig is Some {
                Some(17)
            } else {
                None
            },
            Some(Popup::AddTaskFromUrl) => Some(1),
            Some(Popup::Error) => Some(1),
            Some(Popup::DeleteConfirmation) => Some(1),
            Some(Popup::AddTaskFromFile) => Some(self.dir_list.len()),
        }
    }

    /// The state as a frame leaves it, in a panel that shows `info_visible`
    /// lines and a popup that shows `popup_visible` lines. The Transfer tab
    /// is always shown from its top; every stored scroll offset is brought
    /// back into what its text allows.
    pub open spec fn framed(self, info_visible: nat, popup_visible: nat) -> AppModel {
        let info_scroll: nat = if self.selected_tab == 1 {
            0
        } else {
            self.info_panel_scroll_position as nat
        };
        AppModel {
            info_panel_scroll_position: clamped(
                info_scroll,
                self.info_text().len(),
                info_visible,
            ) as usize,
            popup_scroll_position: match self.popup_lines() {
                Some(lines) => clamped(self.popup_scroll_position as nat, lines, popup_visible)
                    as usize,
                None => self.popup_scroll_position,
            },
            ..self
        }
    }

    /// The selection after a step down that goes round: from the last row to
    /// the first. Nothing is selected in an empty list.
    pub open spec fn wrapped_down(self) -> Option<usize> {
        if self.items.len() == 0 {
            None
        } else {
            match self.selected_row {
                Some(i) => if i + 1 < self.items.len() {
                    Some((i + 1) as usize)
                } else {
                    Some(0)
                },
                None => Some(0),
            }
        }
    }

    /// The selection after a step up that goes round: from the first row to
    /// the last. Nothing is selected in an empty list.
    pub open spec fn wrapped_up(self) -> Option<usize> {
        if self.items.len() == 0 {
            None
        } else {
            match self.selected_row {
                Some(i) => if i == 0 {
                    Some((self.items.len() - 1) as usize)
                } else {
                    Some((i - 1) as usize)
                },
                None => Some(0),
            }
        }
    }

    /// The state after an event.
    pub open spec fn after_event(self, event: AppEvent) -> AppModel {
        match event {
            AppEvent::SelectNextRow => AppModel {
                info_panel_scroll_position: 0,
                selected_row: moved_down(self.selected_row, self.items.len()),
                ..self
            },
            AppEvent::SelectPreviousRow => AppModel {
                info_panel_scroll_position: 0,
                selected_row: moved_up(self.selected_row, self.items.len()),
                ..self
            },
            AppEvent::SelectNextRowFilePicker => AppModel {
                selected_row_filepicker: moved_down(
                    self.selected_row_filepicker,
                    self.dir_list.len(),
                ),
                ..self
            },
            AppEvent::SelectPreviousRowFilePicker => AppModel {
                selected_row_filepicker: moved_up(
                    self.selected_row_filepicker,
                    self.dir_list.len(),
                ),
                ..self
            },
            AppEvent::Help => self.showing(Popup::Help),
            AppEvent::ServerInfo => self.showing(Popup::ServerInfo),
            AppEvent::ShowAddTaskFromUrl => self.showing(Popup::AddTaskFromUrl),
            AppEvent::ShowAddTaskFromFile => self.picking_file(),
            AppEvent::ShowError => self.showing(Popup::Error),
            AppEvent::ShowDeleteConfirmation => self.showing(Popup::DeleteConfirmation),
            AppEvent::AddTaskFromUrl => self,
            AppEvent::AddTaskFromFile => self,
            AppEvent::PauseResumeTask => self,
            AppEvent::DeleteTask => self,
            AppEvent::ManualRefresh => AppModel { refreshing_tasks: true, ..self },
            AppEvent::ScrollDown => AppModel {
                popup_scroll_position: if self.popup_scroll_position < usize::MAX {
                    (self.popup_scroll_position + 1) as usize
                } else {
                    self.popup_scroll_position
                },
                ..self
            },
            AppEvent::ScrollUp => AppModel {
                popup_scroll_position: if self.popup_scroll_position > 0 {
                    (self.popup_scroll_position - 1) as usize
                } else {
                    0
                },
                ..self
            },
            AppEvent::ScrollDownInfo => AppModel {
                info_panel_scroll_position: if self.info_panel_scroll_position < usize::MAX {
                    (self.info_panel_scroll_position + 1) as usize
                } else {
                    self.info_panel_scroll_position
                },
                ..self
            },
            AppEvent::ScrollUpInfo => AppModel {
                info_panel_scroll_position: if self.info_panel_scroll_position > 0 {
                    (self.info_panel_scroll_position - 1) as usize
                } else {
                    0
                },
                ..self
            },
            AppEvent::SelectNextTab => AppModel {
                selected_tab: ((self.selected_tab + 1) % (TAB_COUNT as int)) as usize,
                ..self
            },
            AppEvent::SelectPreviousTab => AppModel {
                selected_tab: if self.selected_tab == 0 {
                    (TAB_COUNT - 1) as usize
                } else {
                    (self.selected_tab - 1) as usize
                },
                ..self
            },
            AppEvent::Quit => AppModel { running: false, ..self },
        }
    }

    /// The outside work that an event asks for.
    pub open spec fn command_for(self, event: AppEvent) -> CommandModel {
        match event {
            AppEvent::AddTaskFromUrl => CommandModel::ReadClipboard,
            AppEvent::AddTaskFromFile => match self.picked_file() {
                Some(file) => CommandModel::ReadFile(file.filepath),
                None => CommandModel::Idle,
            },
            AppEvent::PauseResumeTask => self.pause_command(),
            AppEvent::DeleteTask => self.delete_command(),
            AppEvent::ManualRefresh => CommandModel::Refresh,
            _ => CommandModel::Idle,
        }
    }
}

} // verus!
