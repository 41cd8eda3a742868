use dstui::api::{ConfigData, DownloadTask, TaskError, TaskStatus};
use dstui::app::{App, AppEvent, Command, Event, Key, Popup, PopupText};
use dstui::config::AppConfig;
use dstui::files::FileAttributes;

fn task(id: &str) -> DownloadTask {
    DownloadTask {
        id: id.to_string(),
        size: 0,
        status: TaskStatus::Code(2),
        title: id.to_string(),
        task_type: "bt".to_string(),
        username: "user".to_string(),
        additional: None,
    }
}

fn tasks(ids: &[&str]) -> Vec<DownloadTask> {
    ids.iter().map(|id| task(id)).collect()
}

fn file(name: &str) -> FileAttributes {
    FileAttributes {
        filename: name.to_string(),
        filetype: "File".to_string(),
        filepath: format!("/tmp/{name}"),
    }
}

fn app_with(ids: &[&str]) -> App {
    let mut app = App::new(vec![file("a.torrent"), file("b.torrent"), file("c.txt")]);
    app.load_tasks(Ok(tasks(ids)));
    app
}

fn ids(app: &App) -> Vec<String> {
    app.items().iter().map(|t| t.id.clone()).collect()
}

#[test]
fn a_new_session() {
    let app = App::new(vec![]);
    assert!(app.running());
    assert!(!app.refreshing_tasks());
    assert_eq!(app.selected_row(), None);
    assert_eq!(app.selected_row_filepicker(), None);
    assert_eq!(app.selected_table_row_index(), 0);
    assert_eq!(app.popup_scroll_position(), 0);
    assert_eq!(app.info_panel_scroll_position(), 0);
    assert_eq!(app.selected_tab(), 0);
    assert!(app.items().is_empty());
    assert_eq!(app.error_message(), &None);
    assert_eq!(app.dsconfig(), &None);
    assert_eq!(app.active_popup(), None);
    assert!(!app.is_active());
    assert!(app.return_file_list().is_empty());
    assert_eq!(
        App::headers(),
        vec![
            "Name", "Size", "Downloaded", "Uploaded", "Progress", "Upload Speed", "Download Speed",
            "Ratio", "Status"
        ]
    );
    assert_eq!(App::tabs(), vec!["General", "Transfer", "Tracker", "Peers", "File"]);
}

#[test]
fn first_load_selects_the_top() {
    let app = app_with(&["A", "B", "C"]);
    assert_eq!(app.selected_row(), Some(0));
    assert_eq!(ids(&app), vec!["A", "B", "C"]);
}

#[test]
fn selection_follows_the_task_across_a_refresh() {
    let mut app = app_with(&["A", "B", "C"]);
    app.select_next_row();
    app.select_next_row();
    assert_eq!(app.selected_row(), Some(2));
    app.load_tasks(Ok(tasks(&["A", "C", "D"])));
    assert_eq!(app.selected_row(), Some(1));
    assert_eq!(app.items()[app.selected_row().unwrap()].id, "C");
}

#[test]
fn selection_follows_a_task_that_moved_down() {
    let mut app = app_with(&["A", "B", "C"]);
    app.select_next_row();
    assert_eq!(app.selected_row(), Some(1));
    app.load_tasks(Ok(tasks(&["X", "Y", "A", "B"])));
    assert_eq!(app.selected_row(), Some(3));
    app.load_tasks(Ok(tasks(&["B", "B", "A"])));
    assert_eq!(app.selected_row(), Some(0));
}

#[test]
fn selection_falls_back_to_the_top_when_the_task_is_gone() {
    let mut app = app_with(&["A", "B", "C"]);
    app.select_next_row();
    assert_eq!(app.selected_row(), Some(1));
    app.load_tasks(Ok(tasks(&["X", "Y"])));
    assert_eq!(app.selected_row(), Some(0));
    let mut app = app_with(&["A", "B", "C"]);
    app.select_next_row();
    app.load_tasks(Ok(tasks(&["A", "C", "D"])));
    assert_eq!(app.selected_row(), Some(0));
}

#[test]
fn an_empty_refresh_clears_the_selection() {
    let mut app = app_with(&["A", "B", "C"]);
    app.select_next_row();
    app.load_tasks(Ok(vec![]));
    assert_eq!(app.selected_row(), None);
    assert_eq!(app.selected_table_row_index(), 0);
    assert_eq!(app.pause_task(), Command::Idle);
    assert_eq!(app.delete_task(), Command::Idle);
    assert_eq!(app.update(AppEvent::PauseResumeTask), Command::Idle);
    assert_eq!(app.update(AppEvent::DeleteTask), Command::Idle);
    app.select_next_row();
    assert_eq!(app.selected_row(), None);
    app.select_previous_row();
    assert_eq!(app.selected_row(), None);
    app.next();
    assert_eq!(app.selected_row(), None);
    app.previous();
    assert_eq!(app.selected_row(), None);
    assert_eq!(app.info_panel_lines(), vec![String::new()]);
    app.load_tasks(Ok(tasks(&["Z"])));
    assert_eq!(app.selected_row(), Some(0));
}

#[test]
fn a_failed_refresh_empties_the_list() {
    let mut app = app_with(&["A", "B"]);
    app.load_tasks(Err("timeout".to_string()));
    assert!(app.items().is_empty());
    assert_eq!(app.selected_row(), None);
    assert_eq!(app.error_message(), &Some("Failed to fetch tasks: timeout\n".to_string()));
    assert_eq!(app.active_popup(), None);
}

#[test]
fn refresh_brackets_the_fetch() {
    let mut app = app_with(&["A", "B"]);
    assert_eq!(app.update(AppEvent::ManualRefresh), Command::Refresh);
    assert!(app.refreshing_tasks());
    app.refresh_tasks(Ok(tasks(&["B"])));
    assert!(!app.refreshing_tasks());
    assert_eq!(ids(&app), vec!["B"]);
    assert_eq!(app.step(Event::AutoRefresh), Command::Refresh);
    assert!(app.refreshing_tasks());
    app.refresh_tasks(Err("x".to_string()));
    assert!(!app.refreshing_tasks());
    assert!(app.items().is_empty());
    app.begin_refresh();
    assert!(app.refreshing_tasks());
}

#[test]
fn moving_the_selection_stops_at_the_ends() {
    let mut app = app_with(&["A", "B", "C"]);
    app.select_previous_row();
    assert_eq!(app.selected_row(), Some(0));
    app.select_next_row();
    app.select_next_row();
    app.select_next_row();
    app.select_next_row();
    assert_eq!(app.selected_row(), Some(2));
    app.select_previous_row();
    assert_eq!(app.selected_row(), Some(1));
}

#[test]
fn moving_the_selection_resets_the_detail_scroll() {
    let mut app = app_with(&["A", "B", "C"]);
    app.scroll_down_info();
    app.scroll_down_info();
    assert_eq!(app.info_panel_scroll_position(), 2);
    app.select_next_row();
    assert_eq!(app.info_panel_scroll_position(), 0);
    app.scroll_down_info();
    app.select_previous_row();
    assert_eq!(app.info_panel_scroll_position(), 0);
}

#[test]
fn next_and_previous_go_round() {
    let mut app = app_with(&["A", "B", "C"]);
    app.next();
    assert_eq!(app.selected_row(), Some(1));
    app.next();
    app.next();
    assert_eq!(app.selected_row(), Some(0));
    app.previous();
    assert_eq!(app.selected_row(), Some(2));
    app.previous();
    assert_eq!(app.selected_row(), Some(1));
}

#[test]
fn tabs_go_round() {
    let mut app = App::new(vec![]);
    app.select_previous_tab();
    assert_eq!(app.selected_tab(), 4);
    app.select_next_tab();
    assert_eq!(app.selected_tab(), 0);
    for expected in [1, 2, 3, 4, 0] {
        app.select_next_tab();
        assert_eq!(app.selected_tab(), expected);
    }
    app.select_previous_tab();
    app.select_previous_tab();
    assert_eq!(app.selected_tab(), 3);
}

#[test]
fn scrolling_saturates() {
    let mut app = App::new(vec![]);
    app.scroll_up();
    assert_eq!(app.popup_scroll_position(), 0);
    app.scroll_down();
    app.scroll_down();
    app.scroll_up();
    assert_eq!(app.popup_scroll_position(), 1);
    app.scroll_up_info();
    assert_eq!(app.info_panel_scroll_position(), 0);
    app.scroll_down_info();
    assert_eq!(app.info_panel_scroll_position(), 1);
}

#[test]
fn global_keys() {
    let table = [
        (Key::Esc, Some(AppEvent::Quit)),
        (Key::Char('q'), Some(AppEvent::Quit)),
        (Key::Char('j'), Some(AppEvent::SelectNextRow)),
        (Key::Char('k'), Some(AppEvent::SelectPreviousRow)),
        (Key::Down, Some(AppEvent::ScrollDownInfo)),
        (Key::Up, Some(AppEvent::ScrollUpInfo)),
        (Key::Char('h'), Some(AppEvent::SelectPreviousTab)),
        (Key::Char('l'), Some(AppEvent::SelectNextTab)),
        (Key::Char('a'), Some(AppEvent::ShowAddTaskFromUrl)),
        (Key::Char('A'), Some(AppEvent::ShowAddTaskFromFile)),
        (Key::Char('i'), Some(AppEvent::ServerInfo)),
        (Key::Char('p'), Some(AppEvent::PauseResumeTask)),
        (Key::Char('r'), Some(AppEvent::ManualRefresh)),
        (Key::Char('d'), Some(AppEvent::ShowDeleteConfirmation)),
        (Key::Char('?'), Some(AppEvent::Help)),
        (Key::Char('x'), None),
        (Key::Char('y'), None),
        (Key::Enter, None),
        (Key::Other, None),
    ];
    for (key, event) in table {
        let mut app = app_with(&["A"]);
        assert_eq!(app.handle_key_events(key), event, "{:?}", key);
        assert_eq!(app.active_popup(), None);
        assert!(app.running());
    }
}

fn open(popup: Popup) -> App {
    let mut app = app_with(&["A", "B"]);
    match popup {
        Popup::Help => app.show_help_popup(),
        Popup::AddTaskFromUrl => app.show_add_task_popup(),
        Popup::AddTaskFromFile => app.show_add_task_file_picker(),
        Popup::DeleteConfirmation => app.show_delete_confirmation_popup(),
        Popup::ServerInfo => app.show_server_info_popup(),
        Popup::Error => app.show_error_popup(),
    }
    assert_eq!(app.active_popup(), Some(popup));
    assert!(app.is_active());
    app
}

const POPUPS: [Popup; 6] = [
    Popup::Help,
    Popup::AddTaskFromUrl,
    Popup::AddTaskFromFile,
    Popup::DeleteConfirmation,
    Popup::ServerInfo,
    Popup::Error,
];

#[test]
fn quit_keys_close_a_popup_and_clear_its_state() {
    for popup in POPUPS {
        for key in [Key::Esc, Key::Char('q')] {
            let mut app = open(popup);
            app.scroll_down();
            app.scroll_down();
            assert_eq!(app.handle_key_events(key), None);
            assert_eq!(app.active_popup(), None);
            assert_eq!(app.popup_scroll_position(), 0);
            assert_eq!(app.selected_row_filepicker(), None);
            assert_eq!(app.error_message(), &None);
            assert!(app.running());
        }
    }
}

#[test]
fn popup_keys_scroll_or_move_the_file_picker() {
    for popup in POPUPS {
        let mut app = open(popup);
        let picking = popup == Popup::AddTaskFromFile;
        assert_eq!(
            app.handle_key_events(Key::Char('j')),
            Some(if picking { AppEvent::SelectNextRowFilePicker } else { AppEvent::ScrollDown })
        );
        assert_eq!(
            app.handle_key_events(Key::Char('k')),
            Some(if picking { AppEvent::SelectPreviousRowFilePicker } else { AppEvent::ScrollUp })
        );
        assert_eq!(
            app.handle_key_events(Key::Down),
            if picking { Some(AppEvent::SelectNextRowFilePicker) } else { None }
        );
        assert_eq!(
            app.handle_key_events(Key::Up),
            if picking { Some(AppEvent::SelectPreviousRowFilePicker) } else { None }
        );
        assert_eq!(app.handle_key_events(Key::Char('h')), None);
        assert_eq!(app.handle_key_events(Key::Char('p')), None);
        assert_eq!(app.handle_key_events(Key::Other), None);
        assert_eq!(app.active_popup(), Some(popup));
    }
}

#[test]
fn delete_confirmation_keys() {
    for key in [Key::Char('y'), Key::Char('Y')] {
        let mut app = open(Popup::DeleteConfirmation);
        assert_eq!(app.handle_key_events(key), Some(AppEvent::DeleteTask));
        assert_eq!(app.active_popup(), None);
    }
    for key in [Key::Char('n'), Key::Char('N')] {
        let mut app = open(Popup::DeleteConfirmation);
        assert_eq!(app.handle_key_events(key), None);
        assert_eq!(app.active_popup(), None);
    }
    let mut app = open(Popup::Help);
    assert_eq!(app.handle_key_events(Key::Char('y')), None);
    assert_eq!(app.handle_key_events(Key::Char('n')), None);
    assert_eq!(app.active_popup(), Some(Popup::Help));
    let mut app = open(Popup::DeleteConfirmation);
    assert_eq!(app.handle_key_events(Key::Enter), None);
    assert_eq!(app.active_popup(), Some(Popup::DeleteConfirmation));
}

#[test]
fn enter_in_the_add_popups() {
    let mut app = open(Popup::AddTaskFromUrl);
    assert_eq!(app.handle_key_events(Key::Enter), Some(AppEvent::AddTaskFromUrl));
    assert_eq!(app.active_popup(), None);
    let mut app = open(Popup::AddTaskFromFile);
    assert_eq!(app.handle_key_events(Key::Enter), Some(AppEvent::AddTaskFromFile));
    assert_eq!(app.active_popup(), Some(Popup::AddTaskFromFile));
    let mut app = open(Popup::Help);
    assert_eq!(app.handle_key_events(Key::Enter), None);
    assert_eq!(app.active_popup(), Some(Popup::Help));
}

#[test]
fn opening_a_popup_replaces_the_open_one() {
    let mut app = open(Popup::Help);
    assert_eq!(app.update(AppEvent::ServerInfo), Command::Idle);
    assert_eq!(app.active_popup(), Some(Popup::ServerInfo));
    assert_eq!(app.update(AppEvent::ShowError), Command::Idle);
    assert_eq!(app.active_popup(), Some(Popup::Error));
    assert_eq!(app.update(AppEvent::ShowDeleteConfirmation), Command::Idle);
    assert_eq!(app.active_popup(), Some(Popup::DeleteConfirmation));
    assert_eq!(app.update(AppEvent::ShowAddTaskFromUrl), Command::Idle);
    assert_eq!(app.active_popup(), Some(Popup::AddTaskFromUrl));
    assert_eq!(app.update(AppEvent::Help), Command::Idle);
    assert_eq!(app.active_popup(), Some(Popup::Help));
    assert_eq!(app.update(AppEvent::ShowAddTaskFromFile), Command::Idle);
    assert_eq!(app.active_popup(), Some(Popup::AddTaskFromFile));
}

#[test]
fn the_file_picker_selects_its_first_entry() {
    let mut app = app_with(&["A"]);
    app.show_add_task_file_picker();
    assert_eq!(app.selected_row_filepicker(), Some(0));
    app.select_next_row_filepicker();
    assert_eq!(app.selected_row_filepicker(), Some(1));
    app.show_add_task_file_picker();
    assert_eq!(app.selected_row_filepicker(), Some(1));
    app.select_next_row_filepicker();
    app.select_next_row_filepicker();
    assert_eq!(app.selected_row_filepicker(), Some(2));
    app.select_previous_row_filepicker();
    assert_eq!(app.selected_row_filepicker(), Some(1));
    assert_eq!(app.update(AppEvent::AddTaskFromFile), Command::ReadFile("/tmp/b.torrent".to_string()));
    app.close_all_popups();
    assert_eq!(app.selected_row_filepicker(), None);
    assert_eq!(app.update(AppEvent::AddTaskFromFile), Command::Idle);
    let mut empty = App::new(vec![]);
    empty.show_add_task_file_picker();
    assert_eq!(empty.selected_row_filepicker(), None);
    empty.select_next_row_filepicker();
    assert_eq!(empty.selected_row_filepicker(), None);
    assert_eq!(empty.update(AppEvent::AddTaskFromFile), Command::Idle);
}

#[test]
fn replacing_the_file_list_keeps_a_selection_that_still_fits() {
    let mut app = app_with(&["A"]);
    app.show_add_task_file_picker();
    app.select_next_row_filepicker();
    app.select_next_row_filepicker();
    assert_eq!(app.selected_row_filepicker(), Some(2));
    app.set_file_list(vec![file("x"), file("y"), file("z")]);
    assert_eq!(app.selected_row_filepicker(), Some(2));
    app.set_file_list(vec![file("x")]);
    assert_eq!(app.selected_row_filepicker(), None);
    assert_eq!(app.return_file_list().len(), 1);
}

#[test]
fn adding_a_task_from_a_link() {
    let mut app = app_with(&["A"]);
    assert_eq!(app.update(AppEvent::AddTaskFromUrl), Command::ReadClipboard);
    assert_eq!(
        app.add_task_from_url("https://example.org/a.iso"),
        Command::CreateFromUrl("https://example.org/a.iso".to_string())
    );
    assert_eq!(app.active_popup(), None);
    assert_eq!(app.url_task_created(Ok(())), Command::Reload);
    assert_eq!(app.active_popup(), None);
    assert_eq!(app.error_message(), &None);
}

#[test]
fn a_bad_link_opens_the_error_popup() {
    let mut app = app_with(&["A"]);
    assert_eq!(app.add_task_from_url("not a link"), Command::Idle);
    assert_eq!(app.active_popup(), Some(Popup::Error));
    assert_eq!(app.error_message(), &Some("Invalid URL: not a link".to_string()));
    let mut app = app_with(&["A"]);
    assert_eq!(app.add_task_from_url(""), Command::Idle);
    assert_eq!(app.error_message(), &Some("Invalid URL: ".to_string()));
}

#[test]
fn a_refused_link_opens_the_error_popup() {
    let mut app = app_with(&["A"]);
    assert_eq!(app.url_task_created(Err(TaskError::DestinationDenied)), Command::Idle);
    assert_eq!(app.active_popup(), Some(Popup::Error));
    assert_eq!(app.error_message(), &Some("Failed to add task: Destination denied".to_string()));
    let mut app = app_with(&["A"]);
    assert_eq!(app.url_task_created(Err(TaskError::Other(77))), Command::Idle);
    assert_eq!(
        app.error_message(),
        &Some("Failed to add task: Unknown error (code 77)".to_string())
    );
}

#[test]
fn adding_a_task_from_a_file() {
    let mut app = app_with(&["A"]);
    app.show_add_task_file_picker();
    assert_eq!(
        app.add_task_from_file("/tmp/a.torrent".to_string(), Some(vec![1, 2, 3])),
        Command::CreateFromFile("/tmp/a.torrent".to_string(), vec![1, 2, 3])
    );
    assert_eq!(app.active_popup(), Some(Popup::AddTaskFromFile));
    assert_eq!(app.file_task_created(Ok(())), Command::ReloadAndClose);
    app.load_tasks(Ok(tasks(&["A", "N"])));
    app.close_all_popups();
    assert_eq!(app.active_popup(), None);
    assert_eq!(ids(&app), vec!["A", "N"]);
}

#[test]
fn a_file_that_cannot_be_read_or_is_refused() {
    let mut app = app_with(&["A"]);
    assert_eq!(app.add_task_from_file("/tmp/a.torrent".to_string(), None), Command::Idle);
    assert_eq!(app.active_popup(), Some(Popup::Error));
    assert_eq!(app.error_message(), &Some("Failed to read file.".to_string()));
    let mut app = app_with(&["A"]);
    assert_eq!(app.file_task_created(Err(TaskError::NotTorrentFile)), Command::Idle);
    assert_eq!(app.active_popup(), Some(Popup::Error));
    assert_eq!(app.error_message(), &Some("Failed to add task: Not a .torrent file".to_string()));
}

#[test]
fn pausing_and_resuming_the_selected_task() {
    let mut app = App::new(vec![]);
    let mut list = tasks(&["A", "B", "C", "D"]);
    list[1].status = TaskStatus::Code(3);
    list[2].status = TaskStatus::Name("paused".to_string());
    list[3].status = TaskStatus::Name("Paused".to_string());
    app.load_tasks(Ok(list));
    assert_eq!(app.pause_task(), Command::Pause("A".to_string()));
    app.select_next_row();
    assert_eq!(app.update(AppEvent::PauseResumeTask), Command::Resume("B".to_string()));
    app.select_next_row();
    assert_eq!(app.pause_task(), Command::Resume("C".to_string()));
    app.select_next_row();
    assert_eq!(app.pause_task(), Command::Pause("D".to_string()));
    assert_eq!(app.pause_finished("D", false, Ok(())), Command::Queue(AppEvent::ManualRefresh));
    assert_eq!(app.error_message(), &None);
    assert_eq!(
        app.pause_finished("D", false, Err("boom".to_string())),
        Command::Queue(AppEvent::ManualRefresh)
    );
    assert_eq!(app.error_message(), &Some("Pause task failed for: D\nError: boom".to_string()));
    assert_eq!(app.active_popup(), None);
    app.pause_finished("B", true, Err("nope".to_string()));
    assert_eq!(app.error_message(), &Some("Resume task failed for: B\nError: nope".to_string()));
}

#[test]
fn deleting_the_selected_task() {
    let mut app = app_with(&["A", "B"]);
    app.select_next_row();
    assert_eq!(app.delete_task(), Command::Delete("B".to_string()));
    assert_eq!(app.update(AppEvent::DeleteTask), Command::Delete("B".to_string()));
    assert_eq!(app.delete_finished("B", Ok(())), Command::Queue(AppEvent::ManualRefresh));
    assert_eq!(app.error_message(), &None);
    assert_eq!(
        app.delete_finished("B", Err("denied".to_string())),
        Command::Queue(AppEvent::ManualRefresh)
    );
    assert_eq!(app.error_message(), &Some("Delete task failed for: B\nError: denied".to_string()));
}

fn limits() -> ConfigData {
    ConfigData {
        bt_max_download: 1,
        bt_max_upload: 2,
        default_destination: None,
        emule_default_destination: None,
        emule_enabled: false,
        emule_max_download: 3,
        emule_max_upload: 4,
        ftp_max_download: 5,
        http_max_download: 6,
        nzb_max_download: 7,
        unzip_service_enabled: true,
    }
}

#[test]
fn server_config_is_kept_or_its_failure_reported() {
    let mut app = app_with(&["A"]);
    app.load_server_config(Ok(limits()));
    assert_eq!(app.dsconfig(), &Some(limits()));
    assert_eq!(app.error_message(), &None);
    app.load_server_config(Err("down".to_string()));
    assert_eq!(app.dsconfig(), &None);
    assert_eq!(app.error_message(), &Some("Failed to fetch server config:\ndown".to_string()));
    assert_eq!(ids(&app), vec!["A"]);
}

#[test]
fn steps_of_the_session() {
    let mut app = app_with(&["A", "B"]);
    assert_eq!(app.step(Event::Tick), Command::Idle);
    assert_eq!(app.step(Event::Key(Key::Char('j'))), Command::Queue(AppEvent::SelectNextRow));
    assert_eq!(app.selected_row(), Some(0));
    assert_eq!(app.step(Event::App(AppEvent::SelectNextRow)), Command::Idle);
    assert_eq!(app.selected_row(), Some(1));
    assert_eq!(app.step(Event::Key(Key::Char('?'))), Command::Queue(AppEvent::Help));
    assert_eq!(app.step(Event::App(AppEvent::Help)), Command::Idle);
    assert_eq!(app.step(Event::Key(Key::Char('j'))), Command::Queue(AppEvent::ScrollDown));
    assert_eq!(app.step(Event::App(AppEvent::ScrollDown)), Command::Idle);
    assert_eq!(app.popup_scroll_position(), 1);
    assert_eq!(app.selected_row(), Some(1));
    assert_eq!(app.step(Event::Key(Key::Char('q'))), Command::Idle);
    assert_eq!(app.active_popup(), None);
    assert!(app.running());
    assert_eq!(app.step(Event::Key(Key::Char('q'))), Command::Queue(AppEvent::Quit));
    assert_eq!(app.step(Event::App(AppEvent::Quit)), Command::Idle);
    assert!(!app.running());
    assert_eq!(app.step(Event::Key(Key::Other)), Command::Idle);
    app.tick();
    let mut app = app_with(&["A"]);
    app.quit();
    assert!(!app.running());
    for (event, check) in [
        (AppEvent::ScrollUp, 0usize),
        (AppEvent::ScrollDownInfo, 0),
        (AppEvent::ScrollUpInfo, 0),
        (AppEvent::SelectNextTab, 0),
        (AppEvent::SelectPreviousTab, 0),
        (AppEvent::SelectPreviousRow, 0),
        (AppEvent::SelectNextRowFilePicker, 0),
        (AppEvent::SelectPreviousRowFilePicker, 0),
    ] {
        assert_eq!(app.update(event), Command::Idle);
        assert_eq!(app.popup_scroll_position(), check);
    }
}

#[test]
fn a_frame_clamps_the_scroll_offsets() {
    let mut app = app_with(&["A"]);
    app.show_help_popup();
    for _ in 0..100 {
        app.scroll_down();
        app.scroll_down_info();
    }
    assert_eq!(app.popup_line_count(), Some(14));
    let lines = app.prepare_frame(4, 10);
    assert_eq!(lines.len(), 10);
    assert_eq!(app.popup_scroll_position(), 4);
    assert_eq!(app.info_panel_scroll_position(), 6);
    app.prepare_frame(4, 10);
    assert_eq!(app.popup_scroll_position(), 4);
    assert_eq!(app.info_panel_scroll_position(), 6);
    app.prepare_frame(100, 100);
    assert_eq!(app.popup_scroll_position(), 0);
    assert_eq!(app.info_panel_scroll_position(), 0);
    app.scroll_down();
    app.scroll_down();
    app.prepare_frame(0, 0);
    assert_eq!(app.popup_scroll_position(), 2);
    for _ in 0..100 {
        app.scroll_down();
    }
    app.prepare_frame(0, 0);
    assert_eq!(app.popup_scroll_position(), 14);
}

#[test]
fn a_frame_shows_the_transfer_tab_from_its_top() {
    let mut app = app_with(&["A"]);
    app.select_next_tab();
    assert_eq!(app.selected_tab(), 1);
    app.scroll_down_info();
    app.scroll_down_info();
    let lines = app.prepare_frame(3, 3);
    assert_eq!(lines.len(), 12);
    assert_eq!(app.info_panel_scroll_position(), 0);
}

#[test]
fn popup_line_counts() {
    let mut app = app_with(&["A"]);
    assert_eq!(app.popup_line_count(), None);
    app.show_server_info_popup();
    assert_eq!(app.popup_line_count(), None);
    app.load_server_config(Ok(limits()));
    assert_eq!(app.popup_line_count(), Some(17));
    app.show_error_popup();
    assert_eq!(app.popup_line_count(), Some(1));
    app.show_add_task_popup();
    assert_eq!(app.popup_line_count(), Some(1));
    app.show_delete_confirmation_popup();
    assert_eq!(app.popup_line_count(), Some(1));
    app.show_add_task_file_picker();
    assert_eq!(app.popup_line_count(), Some(3));
    app.scroll_down();
    app.scroll_down();
    app.prepare_frame(5, 2);
    assert_eq!(app.popup_scroll_position(), 1);
}

#[test]
fn extend_task_info_flattens_in_order() {
    let extended = App::extend_task_info(tasks(&["A", "B"]));
    assert_eq!(extended.len(), 2);
    assert_eq!(extended[0].task_id, "A");
    assert_eq!(extended[1].task_id, "B");
    assert!(App::extend_task_info(vec![]).is_empty());
}

fn settings() -> AppConfig {
    AppConfig {
        server_url: "http://localhost".to_string(),
        port: 5000,
        username: "user".to_string(),
        password: "pass".to_string(),
        refresh_interval: 30,
    }
}

#[test]
fn popup_texts() {
    let mut app = app_with(&["A"]);
    assert_eq!(app.popup_text("clip", "path", &settings()), None);
    app.show_help_popup();
    let text = app.popup_text("clip", "path", &settings()).unwrap();
    assert_eq!(text.title, " Help ");
    assert_eq!(text.lines.len(), 14);
    assert!(!text.is_error);
    app.show_server_info_popup();
    assert_eq!(app.popup_text("clip", "path", &settings()), None);
    app.load_server_config(Ok(limits()));
    let text = app.popup_text("clip", "path", &settings()).unwrap();
    assert_eq!(text.title, " Server Info ");
    assert_eq!(text.lines.len(), 17);
    assert_eq!(text.lines[0], " Config file path    : path");
    app.show_add_task_popup();
    assert_eq!(
        app.popup_text("magnet:x", "path", &settings()),
        Some(PopupText {
            title: " URL copied, press <Enter> to add task or close with <q> or ESC ".to_string(),
            lines: vec!["magnet:x".to_string()],
            is_error: false,
        })
    );
    app.show_delete_confirmation_popup();
    let text = app.popup_text("clip", "path", &settings()).unwrap();
    assert_eq!(text.lines.len(), 1);
    app.show_error_popup();
    assert_eq!(
        app.popup_text("clip", "path", &settings()),
        Some(PopupText { title: " Error ".to_string(), lines: vec![String::new()], is_error: true })
    );
    app.add_task_from_url("nope");
    assert_eq!(
        app.popup_text("clip", "path", &settings()),
        Some(PopupText {
            title: " Error ".to_string(),
            lines: vec!["Invalid URL: nope".to_string()],
            is_error: true,
        })
    );
    app.show_add_task_file_picker();
    assert_eq!(app.popup_text("clip", "path", &settings()), None);
    for popup_open in [true, false] {
        if !popup_open {
            app.close_all_popups();
        }
        let count = app.popup_line_count();
        let text = app.popup_text("clip", "path", &settings());
        if let Some(text) = text {
            assert_eq!(count, Some(text.lines.len()));
        }
    }
}

#[test]
fn the_session_stays_well_formed() {
    let mut app = App::new(vec![file("a.torrent")]);
    assert!(app.is_well_formed());
    app.load_tasks(Ok(tasks(&["A", "B", "C"])));
    assert!(app.is_well_formed());
    for key in [Key::Char('j'), Key::Char('A'), Key::Down, Key::Enter, Key::Esc, Key::Char('l')] {
        if let Command::Queue(event) = app.step(Event::Key(key)) {
            app.step(Event::App(event));
        }
        assert!(app.is_well_formed());
    }
    app.load_tasks(Err("down".to_string()));
    assert!(app.is_well_formed());
    app.set_file_list(vec![]);
    assert!(app.is_well_formed());
}
