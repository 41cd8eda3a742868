//! What holds of the session whatever happens: the selection follows the
//! task, an empty list has no selection, a popup owns the keys, and no
//! scroll offset survives a frame outside its range.

use crate::api::task::DownloadTaskModel;
use crate::app::event::{AppEvent, CommandModel, Key};
use crate::app::model::{lemma_position_of, position_of, selected_id, AppModel};
use crate::ui::max_scroll;
use vstd::prelude::*;

verus! {

/// The selection follows the task. Where a task is selected and the fresh
/// list holds a task with its id, the selection after the refresh is the
/// first position of that id in the fresh list, whatever row it had before.
pub proof fn lemma_selection_follows_task(
    state: AppModel,
    fresh: Seq<DownloadTaskModel>,
    at: int,
)
    requires
        state.selected_task() is Some,
        0 <= at < fresh.len() <= usize::MAX,
        fresh[at].id == state.selected_task()->0.id,
    ensures
        state.loaded(Ok(fresh)).selected_row is Some,
        state.loaded(Ok(fresh)).selected_task() is Some,
        state.loaded(Ok(fresh)).selected_task()->0.id == state.selected_task()->0.id,
        state.loaded(Ok(fresh)).selected_row->0 <= at,
        forall|j: int|
            0 <= j < state.loaded(Ok(fresh)).selected_row->0 ==> fresh[j].id
                != state.selected_task()->0.id,
{
    let id = state.selected_task()->0.id;
    lemma_position_of(fresh, id);
    if position_of(fresh, id) is Some {
        let found = position_of(fresh, id)->0;
        if at < found {
            assert(fresh[at].id != id);
        }
    } else {
        assert(fresh[at].id != id);
    }
}

/// The selection falls back to the top. Where the fresh list is not empty
/// and holds no task with the id of the selected task, or no task was
/// selected, the selection after the refresh is the first row.
pub proof fn lemma_selection_falls_back(state: AppModel, fresh: Seq<DownloadTaskModel>)
    requires
        fresh.len() > 0,
        state.selected_task() is Some ==> forall|j: int|
            0 <= j < fresh.len() ==> fresh[j].id != state.selected_task()->0.id,
    ensures
        state.loaded(Ok(fresh)).selected_row == Some(0usize),
{
    if state.selected_task() is Some {
        let id = state.selected_task()->0.id;
        lemma_position_of(fresh, id);
        if position_of(fresh, id) is Some {
            assert(fresh[position_of(fresh, id)->0].id != id);
        }
    }
}

/// An empty list has no selection. After a refresh that brought no tasks,
/// or that failed, nothing is selected; and in every state with nothing
/// selected, pausing, resuming and deleting ask for no outside work.
pub proof fn lemma_empty_list_clears_selection(state: AppModel, error: Seq<char>)
    ensures
        state.loaded(Ok(Seq::empty())).selected_row is None,
        state.loaded(Err(error)).selected_row is None,
        state.loaded(Err(error)).items.len() == 0,
        state.loaded(Ok(Seq::empty())).command_for(AppEvent::PauseResumeTask)
            == CommandModel::Idle,
        state.loaded(Ok(Seq::empty())).command_for(AppEvent::DeleteTask) == CommandModel::Idle,
        state.loaded(Err(error)).command_for(AppEvent::PauseResumeTask) == CommandModel::Idle,
        state.loaded(Err(error)).command_for(AppEvent::DeleteTask) == CommandModel::Idle,
        state.selected_row is None ==> state.command_for(AppEvent::PauseResumeTask)
            == CommandModel::Idle && state.command_for(AppEvent::DeleteTask)
            == CommandModel::Idle,
{
}

/// What holds of every state goes on holding: after a refresh, after a key
/// and after an event, no task is selected while the list is empty and a
/// task of the list is selected otherwise.
pub proof fn lemma_steps_keep_well_formed(
    state: AppModel,
    key: Key,
    event: AppEvent,
    result: Result<Seq<DownloadTaskModel>, Seq<char>>,
)
    requires
        state.well_formed(),
    ensures
        state.loaded(result).well_formed(),
        state.after_key(key).well_formed(),
        state.after_event(event).well_formed(),
        state.closed().well_formed(),
        AppModel::initial(state.dir_list).well_formed(),
{
    match result {
        Ok(fresh) => {
            match selected_id(state.items, state.selected_row) {
                Some(id) => {
                    lemma_position_of(fresh, id);
                },
                None => {},
            }
        },
        Err(_) => {},
    }
}

/// At most one popup is open, and a key goes to it alone. While a popup is
/// open no key moves the selection in the task list, changes the tab or
/// ends the session; and the quit key closes the popup instead.
pub proof fn lemma_popup_owns_the_keys(state: AppModel, key: Key)
    requires
        state.active_popup is Some,
    ensures
        state.key_event(key) != Some(AppEvent::SelectNextRow),
        state.key_event(key) != Some(AppEvent::SelectPreviousRow),
        state.key_event(key) != Some(AppEvent::SelectNextTab),
        state.key_event(key) != Some(AppEvent::SelectPreviousTab),
        state.key_event(key) != Some(AppEvent::Quit),
        state.after_key(key).running == state.running,
        (key == Key::Esc || key == Key::Char('q')) ==> state.after_key(key).active_popup is None
            && state.after_key(key).popup_scroll_position == 0 && state.after_key(
            key,
        ).error_message is None && state.after_key(key).selected_row_filepicker is None,
{
}

/// Scroll offsets are clamped on every frame. Whatever offset was stored,
/// after a frame the popup's offset is at most the number of its lines that
/// do not fit, and so is the detail panel's; an offset inside that range is
/// left as it was.
pub proof fn lemma_frame_clamps_scroll(state: AppModel, info_visible: nat, popup_visible: nat)
    requires
        state.info_text().len() <= usize::MAX,
        state.dir_list.len() <= usize::MAX,
    ensures
        state.popup_lines() is Some ==> 0 <= state.framed(
            info_visible,
            popup_visible,
        ).popup_scroll_position <= max_scroll(state.popup_lines()->0, popup_visible),
        state.popup_lines() is Some && state.popup_scroll_position <= max_scroll(
            state.popup_lines()->0,
            popup_visible,
        ) ==> state.framed(info_visible, popup_visible).popup_scroll_position
            == state.popup_scroll_position,
        0 <= state.framed(info_visible, popup_visible).info_panel_scroll_position <= max_scroll(
            state.info_text().len(),
            info_visible,
        ),
{
}

} // verus!
