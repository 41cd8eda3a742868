//! Which event a key sends, and which keys close a popup.

use crate::app::event::{AppEvent, Key, Popup};
use crate::app::model::{global_key_event, popup_key_closes, popup_key_event};
use vstd::prelude::*;

verus! {

/// The key that the session makes of an event, and the event it sends.
pub fn key_to_event(popup: Option<Popup>, key: Key) -> (event: Option<AppEvent>)
    ensures
        event == match popup {
            Some(popup) => popup_key_event(popup, key),
            None => global_key_event(key),
        },
{
    match popup {
        None => match key {
            Key::Esc => Some(AppEvent::Quit),
            Key::Down => Some(AppEvent::ScrollDownInfo),
            Key::Up => Some(AppEvent::ScrollUpInfo),
            Key::Char(c) => if c == 'q' {
                Some(AppEvent::Quit)
            } else if c == 'j' {
                Some(AppEvent::SelectNextRow)
            } else if c == 'k' {
                Some(AppEvent::SelectPreviousRow)
            } else if c == 'h' {
                Some(AppEvent::SelectPreviousTab)
            } else if c == 'l' {
                Some(AppEvent::SelectNextTab)
            } else if c == 'a' {
                Some(AppEvent::ShowAddTaskFromUrl)
            } else if c == 'A' {
                Some(AppEvent::ShowAddTaskFromFile)
            } else if c == 'i' {
                Some(AppEvent::ServerInfo)
            } else if c == 'p' {
                Some(AppEvent::PauseResumeTask)
            } else if c == 'r' {
                Some(AppEvent::ManualRefresh)
            } else if c == 'd' {
                Some(AppEvent::ShowDeleteConfirmation)
            } else if c == '?' {
                Some(AppEvent::Help)
            } else {
                None
            },
            _ => None,
        },
        Some(popup) => {
            let picking = match popup {
                Popup::AddTaskFromFile => true,
                _ => false,
            };
            let confirming = match popup {
                Popup::DeleteConfirmation => true,
                _ => false,
            };
            let adding = match popup {
                Popup::AddTaskFromUrl => true,
                _ => false,
            };
            match key {
                Key::Down => if picking {
                    Some(AppEvent::SelectNextRowFilePicker)
                } else {
                    None
                },
                Key::Up => if picking {
                    Some(AppEvent::SelectPreviousRowFilePicker)
                } else {
                    None
                },
                Key::Enter => if adding {
                    Some(AppEvent::AddTaskFromUrl)
                } else if picking {
                    Some(AppEvent::AddTaskFromFile)
                } else {
                    None
                },
                Key::Char(c) => if c == 'j' {
                    if picking {
                        Some(AppEvent::SelectNextRowFilePicker)
                    } else {
                        Some(AppEvent::ScrollDown)
                    }
                } else if c == 'k' {
                    if picking {
                        Some(AppEvent::SelectPreviousRowFilePicker)
                    } else {
                        Some(AppEvent::ScrollUp)
                    }
                } else if (c == 'y' || c == 'Y') && confirming {
                    Some(AppEvent::DeleteTask)
                } else {
                    None
                },
                _ => None,
            }
        },
    }
}

/// Whether a key closes the given popup.
pub fn key_closes(popup: Popup, key: Key) -> (closes: bool)
    ensures
        closes == popup_key_closes(popup, key),
{
    let confirming = match popup {
        Popup::DeleteConfirmation => true,
        _ => false,
    };
    let adding = match popup {
        Popup::AddTaskFromUrl => true,
        _ => false,
    };
    match key {
        Key::Esc => true,
        Key::Enter => adding,
        Key::Char(c) => c == 'q' || ((c == 'y' || c == 'Y' || c == 'n' || c == 'N') && confirming),
        _ => false,
    }
}

} // verus!
