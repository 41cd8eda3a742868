//! The interactive session: the task list and what is selected in it, the
//! open popup, the scroll offsets and the active tab.

use crate::api::error::TaskError;
use crate::api::reply::ConfigData;
use crate::api::task::{
    extend_task_info, DownloadTask, DownloadTaskModel, ExtendedDownloadTask,
};
use crate::app::event::{AppEvent, Command, CommandModel, Event, Key, Popup};
use crate::app::keys::{key_closes, key_to_event};
use crate::app::model::{
    add_failed_text, config_failed_text, delete_failed_text, lemma_position_of, moved_down,
    moved_up, pause_failed_text, position_of, AppModel, PopupTextModel, TAB_COUNT,
};
use crate::config::AppConfig;
use crate::files::FileAttributes;
use crate::text::same_text;
use crate::text::text_or_empty;
use crate::ui::lines::{help, server_info, tab_lines};
use crate::ui::{clamp_scroll, max_scroll};
use crate::util::{invalid_url_text, is_download_url, validate_url};
use vstd::prelude::*;

verus! {

/// A fetched task list, or the text of the failure, as plain characters.
pub open spec fn fetched(result: Result<Vec<DownloadTask>, String>) -> Result<
    Seq<DownloadTaskModel>,
    Seq<char>,
> {
    match result {
        Ok(tasks) => Ok(tasks.deep_view()),
        Err(text) => Err(text@),
    }
}

/// One step down in a list of `len` rows.
pub fn step_down(selected: Option<usize>, len: usize) -> (moved: Option<usize>)
    ensures
        moved == moved_down(selected, len as nat),
{
    if len == 0 {
        None
    } else {
        match selected {
            None => Some(0),
            Some(i) => if i < len - 1 {
                Some(i + 1)
            } else {
                Some(len - 1)
            },
        }
    }
}

/// One step up in a list of `len` rows.
pub fn step_up(selected: Option<usize>, len: usize) -> (moved: Option<usize>)
    ensures
        moved == moved_up(selected, len as nat),
{
    if len == 0 {
        None
    } else {
        match selected {
            None => Some(len - 1),
            Some(i) => if i == 0 {
                Some(0)
            } else if i - 1 < len {
                Some(i - 1)
            } else {
                Some(len - 1)
            },
        }
    }
}

/// The position of the first task with the given id.
pub fn find_task(items: &Vec<DownloadTask>, id: &str) -> (found: Option<usize>)
    ensures
        match found {
            Some(i) => position_of(items.deep_view(), id@) == Some(i as int) && i < items@.len(),
            None => position_of(items.deep_view(), id@) is None,
        },
{
    let ghost all = items.deep_view();
    let mut i: usize = 0;
    while i < items.len()
        invariant
            i <= items@.len(),
            all == items.deep_view(),
            forall|j: int| 0 <= j < i ==> all[j].id != id@,
        decreases items@.len() - i,
    {
        if same_text(items[i].id.as_str(), id) {
            proof {
                lemma_position_of(all, id@);
                assert(all[i as int].id == id@);
                match position_of(all, id@) {
                    Some(p) => {
                        if p < i {
                            assert(all[p].id != id@);
                        }
                        if i < p {
                            assert(all[i as int].id != id@);
                        }
                    },
                    None => {
                        assert(all[i as int].id != id@);
                    },
                }
            }
            return Some(i);
        }
        i = i + 1;
    }
    proof {
        lemma_position_of(all, id@);
        if position_of(all, id@) is Some {
            assert(all[position_of(all, id@)->0].id != id@);
        }
    }
    None
}

/// The title and the lines of a popup's body.
#[derive(Debug, Clone, PartialEq, Eq)]
pub struct PopupText {
    pub title: String,
    pub lines: Vec<String>,
    pub is_error: bool,
}

impl View for PopupText {
    type V = PopupTextModel;

    open spec fn view(&self) -> PopupTextModel {
        PopupTextModel {
            title: self.title@,
            lines: self.lines.deep_view(),
            is_error: self.is_error,
        }
    }
}

impl DeepView for PopupText {
    type V = PopupTextModel;

    open spec fn deep_view(&self) -> PopupTextModel {
        self.view()
    }
}

/// A popup with a single line of text.
fn one_line(title: &str, line: String, is_error: bool) -> (text: PopupText)
    ensures
        text@ == (PopupTextModel { title: title@, lines: seq![line@], is_error }),
{
    let mut lines: Vec<String> = Vec::new();
    lines.push(line);
    let text = PopupText { title: String::from_str(title), lines, is_error };
    assert(text@.lines =~= seq![line@]);
    text
}

/// The interactive session: the task list and what is selected in it, the
/// open popup, the scroll offsets and the active tab.
pub struct App {
    running: bool,
    refreshing_tasks: bool,
    selected_row: Option<usize>,
    selected_row_filepicker: Option<usize>,
    dir_list: Vec<FileAttributes>,
    popup_scroll_position: usize,
    info_panel_scroll_position: usize,
    selected_tab: usize,
    items: Vec<DownloadTask>,
    error_message: Option<String>,
    dsconfig: Option<ConfigData>,
    active_popup: Option<Popup>,
}

impl View for App {
    type V = AppModel;

    closed spec fn view(&self) -> AppModel {
        AppModel {
            running: self.running,
            refreshing_tasks: self.refreshing_tasks,
            selected_row: self.selected_row,
            selected_row_filepicker: self.selected_row_filepicker,
            dir_list: self.dir_list.deep_view(),
            popup_scroll_position: self.popup_scroll_position,
            info_panel_scroll_position: self.info_panel_scroll_position,
            selected_tab: self.selected_tab,
            items: self.items.deep_view(),
            error_message: self.error_message.deep_view(),
            dsconfig: self.dsconfig.deep_view(),
            active_popup: self.active_popup,
        }
    }
}

impl App {
    /// A session that has just begun: running, nothing fetched, nothing
    /// selected, no popup, with the given listing of the working directory.
    pub fn new(dir_list: Vec<FileAttributes>) -> (app: Self)
        ensures
            app@ == AppModel::initial(dir_list.deep_view()),
            app@.well_formed(),
    {
        let app = App {
            running: true,
            refreshing_tasks: false,
            selected_row: None,
            selected_row_filepicker: None,
            dir_list,
            popup_scroll_position: 0,
            info_panel_scroll_position: 0,
            selected_tab: 0,
            items: Vec::new(),
            error_message: None,
            dsconfig: None,
            active_popup: None,
        };
        assert(app@.items =~= Seq::empty());
        app
    }

    /// Whether the session is in a state that it can come to by itself: no
    /// task is selected while the list is empty and a task of the list is
    /// selected otherwise, the file picker's selection is an entry of its
    /// listing, and the tab is one of the panel's tabs.
    pub fn is_well_formed(&self) -> (ok: bool)
        ensures
            ok == self@.well_formed(),
    {
        let rows_ok = match self.selected_row {
            Some(i) => i < self.items.len(),
            None => self.items.len() == 0,
        };
        let picker_ok = match self.selected_row_filepicker {
            Some(i) => i < self.dir_list.len(),
            None => true,
        };
        rows_ok && picker_ok && self.selected_tab < TAB_COUNT
    }

    /// The titles of the table's columns.
    pub fn headers() -> (titles: Vec<&'static str>)
        ensures
            titles@.map_values(|title: &'static str| title@) == seq![
                "Name"@,
                "Size"@,
                "Downloaded"@,
                "Uploaded"@,
                "Progress"@,
                "Upload Speed"@,
                "Download Speed"@,
                "Ratio"@,
                "Status"@,
            ],
    {
        let titles = Self::header_titles();
        assert(titles@.map_values(|title: &'static str| title@) =~= seq![
            "Name"@,
            "Size"@,
            "Downloaded"@,
            "Uploaded"@,
            "Progress"@,
            "Upload Speed"@,
            "Download Speed"@,
            "Ratio"@,
            "Status"@,
        ]);
        titles
    }

    fn header_titles() -> (titles: Vec<&'static str>)
        ensures
            titles@.len() == 9,
            titles@[0]@ == "Name"@,
            titles@[1]@ == "Size"@,
            titles@[2]@ == "Downloaded"@,
            titles@[3]@ == "Uploaded"@,
            titles@[4]@ == "Progress"@,
            titles@[5]@ == "Upload Speed"@,
            titles@[6]@ == "Download Speed"@,
            titles@[7]@ == "Ratio"@,
            titles@[8]@ == "Status"@,
    {
        vec![
            "Name",
            "Size",
            "Downloaded",
            "Uploaded",
            "Progress",
            "Upload Speed",
            "Download Speed",
            "Ratio",
            "Status",
        ]
    }

    /// The titles of the detail panel's tabs.
    pub fn tabs() -> (titles: Vec<&'static str>)
        ensures
            titles@.len() == TAB_COUNT,
            titles@.map_values(|title: &'static str| title@) == seq![
                "General"@,
                "Transfer"@,
                "Tracker"@,
                "Peers"@,
                "File"@,
            ],
    {
        let titles = vec!["General", "Transfer", "Tracker", "Peers", "File"];
        assert(titles@.map_values(|title: &'static str| title@) =~= seq![
            "General"@,
            "Transfer"@,
            "Tracker"@,
            "Peers"@,
            "File"@,
        ]);
        titles
    }

    /// Whether the session goes on.
    pub fn running(&self) -> (r: bool)
        ensures
            r == self@.running,
    {
        self.running
    }

    /// Whether the task list is being fetched.
    pub fn refreshing_tasks(&self) -> (r: bool)
        ensures
            r == self@.refreshing_tasks,
    {
        self.refreshing_tasks
    }

    /// The selected row of the task table.
    pub fn selected_row(&self) -> (r: Option<usize>)
        ensures
            r == self@.selected_row,
    {
        self.selected_row
    }

    /// The selected row of the file picker.
    pub fn selected_row_filepicker(&self) -> (r: Option<usize>)
        ensures
            r == self@.selected_row_filepicker,
    {
        self.selected_row_filepicker
    }

    /// The selected row of the task table, or zero where none is selected.
    pub fn selected_table_row_index(&self) -> (r: usize)
        ensures
            r == match self@.selected_row {
                Some(i) => i,
                None => 0,
            },
    {
        match self.selected_row {
            Some(i) => i,
            None => 0,
        }
    }

    /// The scroll offset of the open popup.
    pub fn popup_scroll_position(&self) -> (r: usize)
        ensures
            r == self@.popup_scroll_position,
    {
        self.popup_scroll_position
    }

    /// The scroll offset of the detail panel.
    pub fn info_panel_scroll_position(&self) -> (r: usize)
        ensures
            r == self@.info_panel_scroll_position,
    {
        self.info_panel_scroll_position
    }

    /// The active tab of the detail panel.
    pub fn selected_tab(&self) -> (r: usize)
        ensures
            r == self@.selected_tab,
    {
        self.selected_tab
    }

    /// The tasks as they were last fetched.
    pub fn items(&self) -> (r: &Vec<DownloadTask>)
        ensures
            r.deep_view() == self@.items,
    {
        &self.items
    }

    /// The error text, if there is one.
    pub fn error_message(&self) -> (r: &Option<String>)
        ensures
            r.deep_view() == self@.error_message,
    {
        &self.error_message
    }

    /// The settings of the service, if they were fetched.
    pub fn dsconfig(&self) -> (r: &Option<ConfigData>)
        ensures
            r.deep_view() == self@.dsconfig,
    {
        &self.dsconfig
    }

    /// The open popup, if one is open.
    pub fn active_popup(&self) -> (r: Option<Popup>)
        ensures
            r == self@.active_popup,
    {
        self.active_popup
    }

    /// The listing that the file picker shows.
    pub fn return_file_list(&self) -> (r: &Vec<FileAttributes>)
        ensures
            r.deep_view() == self@.dir_list,
    {
        &self.dir_list
    }

    /// Replaces the listing that the file picker shows. A selection that the
    /// new listing has no entry for is dropped.
    pub fn set_file_list(&mut self, dir_list: Vec<FileAttributes>)
        requires
            old(self)@.well_formed(),
        ensures
            final(self)@.well_formed(),
            final(self)@ == (AppModel {
                dir_list: dir_list.deep_view(),
                selected_row_filepicker: match old(self)@.selected_row_filepicker {
                    Some(i) => if i < dir_list@.len() {
                        Some(i)
                    } else {
                        None
                    },
                    None => None,
                },
                ..old(self)@
            }),
    {
        self.selected_row_filepicker = match self.selected_row_filepicker {
            Some(i) => if i < dir_list.len() {
                Some(i)
            } else {
                None
            },
            None => None,
        };
        self.dir_list = dir_list;
    }

    /// Routes a key: to the open popup if there is one, to the session
    /// otherwise. Returns the event that the key sends, if any; a key that
    /// closes the popup leaves nothing of what the popup owned.
    pub fn handle_key_events(&mut self, key: Key) -> (event: Option<AppEvent>)
        requires
            old(self)@.well_formed(),
        ensures
            event == old(self)@.key_event(key),
            final(self)@ == old(self)@.after_key(key),
            final(self)@.well_formed(),
    {
        let event = key_to_event(self.active_popup, key);
        match self.active_popup {
            Some(popup) => {
                if key_closes(popup, key) {
                    self.close_all_popups();
                }
            },
            None => {},
        }
        event
    }

    /// The frame timer: nothing changes.
    pub fn tick(&self) {
    }

    /// Ends the session.
    pub fn quit(&mut self)
        ensures
            final(self)@ == (AppModel { running: false, ..old(self)@ }),
    {
        self.running = false;
    }

    /// Moves the selection one task down, and shows its details from the top.
    pub fn select_next_row(&mut self)
        requires
            old(self)@.well_formed(),
        ensures
            final(self)@ == old(self)@.after_event(AppEvent::SelectNextRow),
            final(self)@.well_formed(),
    {
        self.info_panel_scroll_position = 0;
        self.selected_row = step_down(self.selected_row, self.items.len());
    }

    /// Moves the selection one task up, and shows its details from the top.
    pub fn select_previous_row(&mut self)
        requires
            old(self)@.well_formed(),
        ensures
            final(self)@ == old(self)@.after_event(AppEvent::SelectPreviousRow),
            final(self)@.well_formed(),
    {
        self.info_panel_scroll_position = 0;
        self.selected_row = step_up(self.selected_row, self.items.len());
    }

    /// Moves the file picker's selection one entry down.
    pub fn select_next_row_filepicker(&mut self)
        requires
            old(self)@.well_formed(),
        ensures
            final(self)@ == old(self)@.after_event(AppEvent::SelectNextRowFilePicker),
            final(self)@.well_formed(),
    {
        self.selected_row_filepicker = step_down(self.selected_row_filepicker, self.dir_list.len());
    }

    /// Moves the file picker's selection one entry up.
    pub fn select_previous_row_filepicker(&mut self)
        requires
            old(self)@.well_formed(),
        ensures
            final(self)@ == old(self)@.after_event(AppEvent::SelectPreviousRowFilePicker),
            final(self)@.well_formed(),
    {
        self.selected_row_filepicker = step_up(self.selected_row_filepicker, self.dir_list.len());
    }

    /// Opens the help popup in place of any other.
    pub fn show_help_popup(&mut self)
        ensures
            final(self)@ == old(self)@.showing(Popup::Help),
    {
        self.active_popup = Some(Popup::Help);
    }

    /// Opens the popup with the service's settings in place of any other.
    pub fn show_server_info_popup(&mut self)
        ensures
            final(self)@ == old(self)@.showing(Popup::ServerInfo),
    {
        self.active_popup = Some(Popup::ServerInfo);
    }

    /// Opens the popup that adds a task from a link in place of any other.
    pub fn show_add_task_popup(&mut self)
        ensures
            final(self)@ == old(self)@.showing(Popup::AddTaskFromUrl),
    {
        self.active_popup = Some(Popup::AddTaskFromUrl);
    }

    /// Opens the file picker in place of any other popup. Where it has no
    /// selection yet and the listing is not empty, the first entry is selected.
    pub fn show_add_task_file_picker(&mut self)
        ensures
            final(self)@ == old(self)@.picking_file(),
            old(self)@.well_formed() ==> final(self)@.well_formed(),
    {
        self.active_popup = Some(Popup::AddTaskFromFile);
        if self.selected_row_filepicker.is_none() && self.dir_list.len() > 0 {
            self.selected_row_filepicker = Some(0);
        }
    }

    /// Opens the error popup in place of any other.
    pub fn show_error_popup(&mut self)
        ensures
            final(self)@ == old(self)@.showing(Popup::Error),
    {
        self.active_popup = Some(Popup::Error);
    }

    /// Opens the popup that asks before a delete in place of any other.
    pub fn show_delete_confirmation_popup(&mut self)
        ensures
            final(self)@ == old(self)@.showing(Popup::DeleteConfirmation),
    {
        self.active_popup = Some(Popup::DeleteConfirmation);
    }

    /// Whether a popup is open.
    pub fn is_active(&self) -> (open: bool)
        ensures
            open == self@.active_popup is Some,
    {
        self.active_popup.is_some()
    }

    /// Scrolls the open popup one line down.
    pub fn scroll_down(&mut self)
        ensures
            final(self)@ == old(self)@.after_event(AppEvent::ScrollDown),
    {
        if self.popup_scroll_position < usize::MAX {
            self.popup_scroll_position = self.popup_scroll_position + 1;
        }
    }

    /// Scrolls the open popup one line up.
    pub fn scroll_up(&mut self)
        ensures
            final(self)@ == old(self)@.after_event(AppEvent::ScrollUp),
    {
        if self.popup_scroll_position > 0 {
            self.popup_scroll_position = self.popup_scroll_position - 1;
        }
    }

    /// Scrolls the detail panel one line down.
    pub fn scroll_down_info(&mut self)
        ensures
            final(self)@ == old(self)@.after_event(AppEvent::ScrollDownInfo),
    {
        if self.info_panel_scroll_position < usize::MAX {
            self.info_panel_scroll_position = self.info_panel_scroll_position + 1;
        }
    }

    /// Scrolls the detail panel one line up.
    pub fn scroll_up_info(&mut self)
        ensures
            final(self)@ == old(self)@.after_event(AppEvent::ScrollUpInfo),
    {
        if self.info_panel_scroll_position > 0 {
            self.info_panel_scroll_position = self.info_panel_scroll_position - 1;
        }
    }

    /// Goes to the next tab of the detail panel, from the last to the first.
    pub fn select_next_tab(&mut self)
        requires
            old(self)@.well_formed(),
        ensures
            final(self)@ == old(self)@.after_event(AppEvent::SelectNextTab),
            final(self)@.well_formed(),
    {
        self.selected_tab = (self.selected_tab + 1) % TAB_COUNT;
    }

    /// Goes to the previous tab of the detail panel, from the first to the last.
    pub fn select_previous_tab(&mut self)
        requires
            old(self)@.well_formed(),
        ensures
            final(self)@ == old(self)@.after_event(AppEvent::SelectPreviousTab),
            final(self)@.well_formed(),
    {
        if self.selected_tab == 0 {
            self.selected_tab = TAB_COUNT - 1;
        } else {
            self.selected_tab = self.selected_tab - 1;
        }
    }

    /// Closes the open popup and clears what it owned: its scroll offset,
    /// the file picker's selection and the error text.
    pub fn close_all_popups(&mut self)
        ensures
            final(self)@ == old(self)@.closed(),
            old(self)@.well_formed() ==> final(self)@.well_formed(),
    {
        self.active_popup = None;
        self.error_message = None;
        self.popup_scroll_position = 0;
        self.selected_row_filepicker = None;
    }

    /// Takes in the fetched task list, or the failure to fetch it. The list
    /// is replaced as a whole; on failure it is emptied and the failure kept
    /// as the error text. The selection follows the task that was selected,
    /// by its id, to its new position; it goes to the top where that task is
    /// gone or none was selected, and there is none while the list is empty.
    pub fn load_tasks(&mut self, result: Result<Vec<DownloadTask>, String>)
        ensures
            final(self)@ == old(self)@.loaded(fetched(result)),
            old(self)@.well_formed() ==> final(self)@.well_formed(),
    {
        let previous: Option<String> = match self.selected_row {
            Some(i) => if i < self.items.len() {
                Some(self.items[i].id.clone())
            } else {
                None
            },
            None => None,
        };
        match result {
            Ok(tasks) => {
                self.items = tasks;
            },
            Err(e) => {
                let mut message = String::from_str("Failed to fetch tasks: ");
                message.append(e.as_str());
                message.append("\n");
                self.error_message = Some(message);
                self.items = Vec::new();
            },
        }
        if self.items.len() > 0 {
            let found = match previous {
                Some(id) => find_task(&self.items, id.as_str()),
                None => None,
            };
            self.selected_row = Some(
                match found {
                    Some(i) => i,
                    None => 0,
                },
            );
        } else {
            self.selected_row = None;
        }
        proof {
            let fresh = self@.items;
            assert(fresh =~= match fetched(result) {
                Ok(tasks) => tasks,
                Err(_) => Seq::empty(),
            });
        }
    }

    /// Ends a refresh: takes in the task list as `load_tasks` does, and the
    /// session is no longer fetching.
    pub fn refresh_tasks(&mut self, result: Result<Vec<DownloadTask>, String>)
        ensures
            final(self)@ == (AppModel {
                refreshing_tasks: false,
                ..old(self)@.loaded(fetched(result))
            }),
            old(self)@.well_formed() ==> final(self)@.well_formed(),
    {
        self.load_tasks(result);
        self.refreshing_tasks = false;
    }

    /// Begins a refresh: the session is fetching until `refresh_tasks` is called.
    pub fn begin_refresh(&mut self)
        ensures
            final(self)@ == (AppModel { refreshing_tasks: true, ..old(self)@ }),
    {
        self.refreshing_tasks = true;
    }

    /// Takes in the settings of the service, or the failure to fetch them,
    /// which is kept as the error text. Nothing else changes either way.
    pub fn load_server_config(&mut self, result: Result<ConfigData, String>)
        ensures
            final(self)@ == match result {
                Ok(config) => AppModel { dsconfig: Some(config@), ..old(self)@ },
                Err(e) => AppModel {
                    dsconfig: None,
                    error_message: Some(config_failed_text(e@)),
                    ..old(self)@
                },
            },
    {
        match result {
            Ok(config) => {
                self.dsconfig = Some(config);
            },
            Err(e) => {
                let mut message = String::from_str("Failed to fetch server config:\n");
                message.append(e.as_str());
                self.error_message = Some(message);
                self.dsconfig = None;
            },
        }
    }

    /// Opens the error popup on the given message.
    fn fail(&mut self, message: String)
        ensures
            final(self)@ == old(self)@.failed(message@),
    {
        self.error_message = Some(message);
        self.active_popup = Some(Popup::Error);
    }

    /// Takes in the text of the clipboard. A link with a known scheme is to
    /// be sent to the service; anything else opens the error popup, and
    /// nothing is sent.
    pub fn add_task_from_url(&mut self, clipboard_text: &str) -> (command: Command)
        ensures
            is_download_url(clipboard_text@) ==> final(self)@ == old(self)@ && command@
                == CommandModel::CreateFromUrl(clipboard_text@),
            !is_download_url(clipboard_text@) ==> final(self)@ == old(self)@.failed(
                invalid_url_text(clipboard_text@),
            ) && command@ == CommandModel::Idle,
    {
        match validate_url(clipboard_text) {
            Ok(_) => Command::CreateFromUrl(String::from_str(clipboard_text)),
            Err(message) => {
                self.fail(message);
                Command::Idle
            },
        }
    }

    /// Takes in the outcome of creating a task from a link: on success the
    /// task list is to be fetched again; on failure the error popup opens.
    pub fn url_task_created(&mut self, result: Result<(), TaskError>) -> (command: Command)
        ensures
            match result {
                Ok(_) => final(self)@ == old(self)@ && command@ == CommandModel::Reload,
                Err(e) => final(self)@ == old(self)@.failed(add_failed_text(e)) && command@
                    == CommandModel::Idle,
            },
    {
        match result {
            Ok(_) => Command::Reload,
            Err(e) => {
                let mut message = String::from_str("Failed to add task: ");
                message.append(e.to_string().as_str());
                self.fail(message);
                Command::Idle
            },
        }
    }

    /// Takes in the content of the picked file, or none where it could not
    /// be read: the content is to be sent to the service; a file that could
    /// not be read opens the error popup.
    pub fn add_task_from_file(&mut self, file_path: String, content: Option<Vec<u8>>) -> (command:
        Command)
        ensures
            match content {
                Some(data) => final(self)@ == old(self)@ && command@
                    == CommandModel::CreateFromFile(file_path@, data@),
                None => final(self)@ == old(self)@.failed("Failed to read file."@) && command@
                    == CommandModel::Idle,
            },
    {
        match content {
            Some(data) => Command::CreateFromFile(file_path, data),
            None => {
                self.fail(String::from_str("Failed to read file."));
                Command::Idle
            },
        }
    }

    /// Takes in the outcome of creating a task from a file: on success the
    /// task list is to be fetched again and the popup closed; on failure the
    /// error popup opens.
    pub fn file_task_created(&mut self, result: Result<(), TaskError>) -> (command: Command)
        ensures
            match result {
                Ok(_) => final(self)@ == old(self)@ && command@ == CommandModel::ReloadAndClose,
                Err(e) => final(self)@ == old(self)@.failed(add_failed_text(e)) && command@
                    == CommandModel::Idle,
            },
    {
        match result {
            Ok(_) => Command::ReloadAndClose,
            Err(e) => {
                let mut message = String::from_str("Failed to add task: ");
                message.append(e.to_string().as_str());
                self.fail(message);
                Command::Idle
            },
        }
    }

    /// The outside work that pausing or resuming the selected task needs: a
    /// paused task is to be resumed, any other paused. Without a selected
    /// task nothing is attempted.
    pub fn pause_task(&self) -> (command: Command)
        ensures
            command@ == self@.pause_command(),
    {
        match self.selected_row {
            Some(i) => if i < self.items.len() {
                let task = &self.items[i];
                if same_text(task.status.label(), "paused") {
                    Command::Resume(task.id.clone())
                } else {
                    Command::Pause(task.id.clone())
                }
            } else {
                Command::Idle
            },
            None => Command::Idle,
        }
    }

    /// Takes in the outcome of a pause or resume: a failure is kept as the
    /// error text. Either way the task list is to be refreshed.
    pub fn pause_finished(
        &mut self,
        id: &str,
        resumed: bool,
        result: Result<(), String>,
    ) -> (command:
        Command)
        ensures
            command@ == CommandModel::Queue(AppEvent::ManualRefresh),
            final(self)@ == match result {
                Ok(_) => old(self)@,
                Err(e) => AppModel {
                    error_message: Some(pause_failed_text(resumed, id@, e@)),
                    ..old(self)@
                },
            },
    {
        match result {
            Ok(_) => {},
            Err(e) => {
                let mut message = String::from_str(
                    if resumed {
                        "Resume"
                    } else {
                        "Pause"
                    },
                );
                message.append(" task failed for: ");
                message.append(id);
                message.append("\nError: ");
                message.append(e.as_str());
                self.error_message = Some(message);
            },
        }
        Command::Queue(AppEvent::ManualRefresh)
    }

    /// The outside work that deleting the selected task needs. Without a
    /// selected task nothing is attempted.
    pub fn delete_task(&self) -> (command: Command)
        ensures
            command@ == self@.delete_command(),
    {
        match self.selected_row {
            Some(i) => if i < self.items.len() {
                Command::Delete(self.items[i].id.clone())
            } else {
                Command::Idle
            },
            None => Command::Idle,
        }
    }

    /// Takes in the outcome of a delete: a failure is kept as the error
    /// text. Either way the task list is to be refreshed.
    pub fn delete_finished(&mut self, id: &str, result: Result<(), String>) -> (command: Command)
        ensures
            command@ == CommandModel::Queue(AppEvent::ManualRefresh),
            final(self)@ == match result {
                Ok(_) => old(self)@,
                Err(e) => AppModel {
                    error_message: Some(delete_failed_text(id@, e@)),
                    ..old(self)@
                },
            },
    {
        match result {
            Ok(_) => {},
            Err(e) => {
                let mut message = String::from_str("Delete task failed for: ");
                message.append(id);
                message.append("\nError: ");
                message.append(e.as_str());
                self.error_message = Some(message);
            },
        }
        Command::Queue(AppEvent::ManualRefresh)
    }

    /// The outside work that adding a task from the picked file needs: its
    /// content is to be read. Without a picked file nothing is attempted.
    pub fn picked_file_command(&self) -> (command: Command)
        ensures
            command@ == match self@.picked_file() {
                Some(file) => CommandModel::ReadFile(file.filepath),
                None => CommandModel::Idle,
            },
    {
        match self.selected_row_filepicker {
            Some(i) => if i < self.dir_list.len() {
                Command::ReadFile(self.dir_list[i].filepath.clone())
            } else {
                Command::Idle
            },
            None => Command::Idle,
        }
    }

    /// Moves the selection one task down, going round from the last to the first.
    pub fn next(&mut self)
        requires
            old(self)@.well_formed(),
        ensures
            final(self)@ == (AppModel { selected_row: old(self)@.wrapped_down(), ..old(self)@ }),
            final(self)@.well_formed(),
    {
        let count = self.items.len();
        self.selected_row = if count == 0 {
            None
        } else {
            match self.selected_row {
                Some(i) => if i < count - 1 {
                    Some(i + 1)
                } else {
                    Some(0)
                },
                None => Some(0),
            }
        };
    }

    /// Moves the selection one task up, going round from the first to the last.
    pub fn previous(&mut self)
        requires
            old(self)@.well_formed(),
        ensures
            final(self)@ == (AppModel { selected_row: old(self)@.wrapped_up(), ..old(self)@ }),
            final(self)@.well_formed(),
    {
        let count = self.items.len();
        self.selected_row = if count == 0 {
            None
        } else {
            match self.selected_row {
                Some(i) => if i == 0 {
                    Some(count - 1)
                } else {
                    Some(i - 1)
                },
                None => Some(0),
            }
        };
    }

    /// Flattens every task of a list for display, in order.
    pub fn extend_task_info(tasks: Vec<DownloadTask>) -> (extended: Vec<ExtendedDownloadTask>)
        ensures
            extended.deep_view() == tasks.deep_view().map_values(
                |t: DownloadTaskModel| t.extended(),
            ),
    {
        extend_task_info(&tasks)
    }

    /// The lines of the detail panel: those of the active tab for the
    /// selected task, or a single empty line where no task is selected.
    pub fn info_panel_lines(&self) -> (lines: Vec<String>)
        ensures
            lines.deep_view() == self@.info_text(),
    {
        match self.selected_row {
            Some(i) => if i < self.items.len() {
                let task = ExtendedDownloadTask::from_ref(&self.items[i]);
                tab_lines(self.selected_tab, &task)
            } else {
                let mut lines: Vec<String> = Vec::new();
                lines.push(String::new());
                assert(lines.deep_view() =~= seq![Seq::<char>::empty()]);
                lines
            },
            None => {
                let mut lines: Vec<String> = Vec::new();
                lines.push(String::new());
                assert(lines.deep_view() =~= seq![Seq::<char>::empty()]);
                lines
            },
        }
    }

    /// The title and the lines of the open popup's body, where a popup with
    /// a body of text is drawn. It has as many lines as `popup_line_count` says.
    pub fn popup_text(&self, clipboard_text: &str, config_path: &str, config: &AppConfig) -> (text:
        Option<PopupText>)
        ensures
            text.deep_view() == self@.popup_text(clipboard_text@, config_path@, config@),
            text is Some ==> self@.popup_lines() == Some(text->0@.lines.len()),
    {
        match self.active_popup {
            None => None,
            Some(Popup::AddTaskFromFile) => None,
            Some(Popup::Help) => Some(
                PopupText { title: String::from_str(" Help "), lines: help(), is_error: false },
            ),
            Some(Popup::ServerInfo) => match &self.dsconfig {
                Some(limits) => Some(
                    PopupText {
                        title: String::from_str(" Server Info "),
                        lines: server_info(config_path, config, limits),
                        is_error: false,
                    },
                ),
                None => None,
            },
            Some(Popup::AddTaskFromUrl) => Some(
                one_line(
                    " URL copied, press <Enter> to add task or close with <q> or ESC ",
                    String::from_str(clipboard_text),
                    false,
                ),
            ),
            Some(Popup::DeleteConfirmation) => Some(
                one_line(
                    " Delete task ",
                    String::from_str(" Delete the selected task? <y> / <n>"),
                    false,
                ),
            ),
            Some(Popup::Error) => Some(
                one_line(" Error ", text_or_empty(&self.error_message), true),
            ),
        }
    }

    /// The number of lines of the open popup's body, where one is drawn.
    pub fn popup_line_count(&self) -> (count: Option<usize>)
        ensures
            match count {
                Some(n) => self@.popup_lines() == Some(n as nat),
                None => self@.popup_lines() is None,
            },
    {
        match self.active_popup {
            None => None,
            Some(Popup::Help) => Some(14),
            Some(Popup::ServerInfo) => if self.dsconfig.is_some() {
                Some(17)
            } else {
                None
            },
            Some(Popup::AddTaskFromUrl) => Some(1),
            Some(Popup::Error) => Some(1),
            Some(Popup::DeleteConfirmation) => Some(1),
            Some(Popup::AddTaskFromFile) => Some(self.dir_list.len()),
        }
    }

    /// Makes the state ready for a frame in which the detail panel shows
    /// `info_visible` lines and the popup `popup_visible` lines, and returns
    /// the lines of the detail panel. The Transfer tab is shown from its
    /// top. Whatever was stored, each scroll offset afterwards lies between
    /// zero and the number of lines that do not fit.
    pub fn prepare_frame(&mut self, info_visible: usize, popup_visible: usize) -> (lines: Vec<
        String,
    >)
        ensures
            lines.deep_view() == old(self)@.info_text(),
            final(self)@ == old(self)@.framed(info_visible as nat, popup_visible as nat),
            final(self)@.info_panel_scroll_position <= max_scroll(
                lines@.len() as nat,
                info_visible as nat,
            ),
            old(self)@.popup_lines() is Some ==> final(self)@.popup_scroll_position <= max_scroll(
                old(self)@.popup_lines()->0,
                popup_visible as nat,
            ),
            old(self)@.well_formed() ==> final(self)@.well_formed(),
    {
        let lines = self.info_panel_lines();
        if self.selected_tab == 1 {
            self.info_panel_scroll_position = 0;
        }
        self.info_panel_scroll_position = clamp_scroll(
            self.info_panel_scroll_position,
            lines.len(),
            info_visible,
        );
        match self.popup_line_count() {
            Some(count) => {
                self.popup_scroll_position = clamp_scroll(
                    self.popup_scroll_position,
                    count,
                    popup_visible,
                );
            },
            None => {},
        }
        lines
    }

    /// Applies a queued event: the state changes as the event says, and the
    /// outside work it needs, if any, is returned.
    pub fn update(&mut self, event: AppEvent) -> (command: Command)
        requires
            old(self)@.well_formed(),
        ensures
            final(self)@ == old(self)@.after_event(event),
            command@ == old(self)@.command_for(event),
            final(self)@.well_formed(),
    {
        match event {
            AppEvent::SelectNextRow => {
                self.select_next_row();
                Command::Idle
            },
            AppEvent::SelectPreviousRow => {
                self.select_previous_row();
                Command::Idle
            },
            AppEvent::SelectNextRowFilePicker => {
                self.select_next_row_filepicker();
                Command::Idle
            },
            AppEvent::SelectPreviousRowFilePicker => {
                self.select_previous_row_filepicker();
                Command::Idle
            },
            AppEvent::Help => {
                self.show_help_popup();
                Command::Idle
            },
            AppEvent::ServerInfo => {
                self.show_server_info_popup();
                Command::Idle
            },
            AppEvent::ShowAddTaskFromUrl => {
                self.show_add_task_popup();
                Command::Idle
            },
            AppEvent::ShowAddTaskFromFile => {
                self.show_add_task_file_picker();
                Command::Idle
            },
            AppEvent::ShowError => {
                self.show_error_popup();
                Command::Idle
            },
            AppEvent::ShowDeleteConfirmation => {
                self.show_delete_confirmation_popup();
                Command::Idle
            },
            AppEvent::AddTaskFromUrl => Command::ReadClipboard,
            AppEvent::AddTaskFromFile => self.picked_file_command(),
            AppEvent::PauseResumeTask => self.pause_task(),
            AppEvent::DeleteTask => self.delete_task(),
            AppEvent::ManualRefresh => {
                self.begin_refresh();
                Command::Refresh
            },
            AppEvent::ScrollDown => {
                self.scroll_down();
                Command::Idle
            },
            AppEvent::ScrollUp => {
                self.scroll_up();
                Command::Idle
            },
            AppEvent::ScrollDownInfo => {
                self.scroll_down_info();
                Command::Idle
            },
            AppEvent::ScrollUpInfo => {
                self.scroll_up_info();
                Command::Idle
            },
            AppEvent::SelectNextTab => {
                self.select_next_tab();
                Command::Idle
            },
            AppEvent::SelectPreviousTab => {
                self.select_previous_tab();
                Command::Idle
            },
            AppEvent::Quit => {
                self.quit();
                Command::Idle
            },
        }
    }

    /// One step of the session. The frame timer changes nothing; the refresh
    /// timer begins a refresh; a key is routed and the event it sends is to
    /// be queued; a queued event is applied.
    pub fn step(&mut self, event: Event) -> (command: Command)
        requires
            old(self)@.well_formed(),
        ensures
            final(self)@.well_formed(),
            match event {
                Event::Tick => final(self)@ == old(self)@ && command@ == CommandModel::Idle,
                Event::AutoRefresh => final(self)@ == old(self)@.after_event(
                    AppEvent::ManualRefresh,
                ) && command@ == CommandModel::Refresh,
                Event::Key(key) => final(self)@ == old(self)@.after_key(key) && command@
                    == match old(self)@.key_event(key) {
                    Some(sent) => CommandModel::Queue(sent),
                    None => CommandModel::Idle,
                },
                Event::App(queued) => final(self)@ == old(self)@.after_event(queued) && command@
                    == old(self)@.command_for(queued),
            },
    {
        match event {
            Event::Tick => {
                self.tick();
                Command::Idle
            },
            Event::AutoRefresh => {
                self.begin_refresh();
                Command::Refresh
            },
            Event::Key(key) => match self.handle_key_events(key) {
                Some(sent) => Command::Queue(sent),
                None => Command::Idle,
            },
            Event::App(queued) => self.update(queued),
        }
    }
}

} // verus!
