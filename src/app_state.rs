use crate::confirmation_dialog::{ConfirmationPayload, ConfirmationTopic};
use crate::flags::OperationFlags;
use crate::persistence::{index_in_range, valid_workouts_state, WorkoutsState, MAX_WORKOUTS};
use crate::ui::{MainViewModel, Page, SettingsViewModel};
use crate::workout::{find_position, has_text, other_has_text, position_of, texts_of, Workout};
use vstd::prelude::*;

verus! {

/// The application's state: the rotation, the screen on display, the
/// pending confirmation and the settings screen's transient input. Entries
/// are found by identifier; where two share one, the first counts.
pub struct AppState {
    pub workout_index: i8,
    pub workouts: Vec<Workout>,
    pub current_page: Page,
    pub show_confirmation: Option<ConfirmationTopic>,
    pub workout_selection: Option<Workout>,
    pub workout_input: Option<String>,
    pub operation_flags: OperationFlags,
}

/// What an event asks of the surroundings once the state has changed.
#[derive(Clone, Copy, Debug, PartialEq, Eq, Structural)]
pub enum Effect {
    Nothing,
    SaveWorkouts,
}

/// An event of the user interface that the state reacts to.
#[derive(Clone, Debug)]
pub enum Event {
    NextWorkout,
    OpenSettings,
    CloseSettings,
    CloseConfirmationDialog(ConfirmationPayload),
    WorkoutSelection(Option<Workout>),
    WorkoutInput(Option<String>),
    AddWorkout,
    UpdateWorkout,
    InitiateWorkoutDeletion,
    InitiateClearance,
    MoveWorkoutUp,
    MoveWorkoutDown,
}

/// The edit buffer can be added as a new entry: it is present, not empty,
/// and no entry shows the same text.
pub open spec fn addable_input(ws: Seq<Workout>, input: Option<String>) -> bool {
    match input {
        Some(s) => s@.len() > 0 && !has_text(ws, s@),
        None => false,
    }
}

/// The edit buffer can become the text of the entry with identifier `id`: it
/// is present, not empty, and no other entry shows the same text.
pub open spec fn updatable_input(ws: Seq<Workout>, id: u128, input: Option<String>) -> bool {
    match input {
        Some(s) => s@.len() > 0 && !other_has_text(ws, id, s@),
        None => false,
    }
}

/// The enablement flags for a list, a selection and an edit buffer. "Add"
/// also needs room in the list; "Update", "Delete" and the moves need a
/// selection.
pub open spec fn derived_flags(
    ws: Seq<Workout>,
    selection: Option<Workout>,
    input: Option<String>,
) -> OperationFlags {
    OperationFlags {
        can_add: addable_input(ws, input) && ws.len() < MAX_WORKOUTS,
        can_update: match selection {
            Some(w) => updatable_input(ws, w.id, input),
            None => false,
        },
        can_delete: selection is Some,
        can_clear: ws.len() > 0,
        can_move_up: match selection {
            Some(w) => match position_of(ws, w.id) {
                Some(p) => p > 0,
                None => false,
            },
            None => false,
        },
        can_move_down: match selection {
            Some(w) => match position_of(ws, w.id) {
                Some(p) => p < ws.len() - 1,
                None => false,
            },
            None => false,
        },
    }
}

/// The state holds the stored form: the same index and the same texts in
/// the same order.
pub open spec fn holds_state(a: AppState, s: WorkoutsState) -> bool {
    &&& a.workout_index == s.index
    &&& a.workouts@.len() == s.workouts@.len()
    &&& forall|k: int| 0 <= k < s.workouts@.len() ==> #[trigger] a.workouts@[k].text@ == s.workouts@[k]@
}

/// The index that "Next" moves to on a list of `count` entries.
pub open spec fn next_index(index: int, count: int) -> int {
    (index + 1) % count
}

/// The index after the entry at position `p` is deleted: one lower, but not
/// below 0, when the entry stood at or before it; unchanged otherwise.
pub open spec fn index_after_deletion(index: int, p: int) -> int {
    if p <= index {
        if index > 0 {
            index - 1
        } else {
            0
        }
    } else {
        index
    }
}

/// The list with the entries at positions `i` and `j` exchanged.
pub open spec fn swapped(ws: Seq<Workout>, i: int, j: int) -> Seq<Workout> {
    ws.update(i, ws[j]).update(j, ws[i])
}

/// The selection after `chosen` was picked: picking the selected entry again
/// clears the selection, anything else becomes the selection.
pub open spec fn toggled(current: Option<Workout>, chosen: Option<Workout>) -> Option<Workout> {
    match (current, chosen) {
        (Some(a), Some(b)) => if a.id == b.id {
            None
        } else {
            chosen
        },
        _ => chosen,
    }
}

/// "Next": a non-empty list moves to the following entry, from the last back
/// to the first, and is saved; an empty list stays as it is.
pub open spec fn next_workout(pre: AppState, post: AppState, e: Effect) -> bool {
    if pre.workouts@.len() == 0 {
        post == pre && e == Effect::Nothing
    } else {
        &&& post == (AppState {
            workout_index: next_index(pre.workout_index as int, pre.workouts@.len() as int) as i8,
            ..pre
        })
        &&& e == Effect::SaveWorkouts
    }
}

/// Opening the settings screen.
pub open spec fn open_settings(pre: AppState, post: AppState, e: Effect) -> bool {
    post == (AppState { current_page: Page::Settings, ..pre }) && e == Effect::Nothing
}

/// Closing the settings screen: back to the main screen, with the selection
/// and the edit buffer dropped.
pub open spec fn close_settings(pre: AppState, post: AppState, e: Effect) -> bool {
    &&& post == (AppState {
        current_page: Page::Main,
        workout_selection: None,
        workout_input: None,
        operation_flags: derived_flags(pre.workouts@, None, None),
        ..pre
    })
    &&& e == Effect::Nothing
}

/// Picking an entry of the list (or nothing): the selection toggles, and a
/// new selection copies its text into the edit buffer.
pub open spec fn select_workout(
    pre: AppState,
    chosen: Option<Workout>,
    post: AppState,
    e: Effect,
) -> bool {
    let selection = toggled(pre.workout_selection, chosen);
    let input = match selection {
        Some(w) => Some(w.text),
        None => pre.workout_input,
    };
    &&& post == (AppState {
        workout_selection: selection,
        workout_input: input,
        operation_flags: derived_flags(pre.workouts@, selection, input),
        ..pre
    })
    &&& e == Effect::Nothing
}

/// Typing into the edit buffer.
pub open spec fn edit_input(pre: AppState, input: Option<String>, post: AppState, e: Effect) -> bool {
    &&& post == (AppState {
        workout_input: input,
        operation_flags: derived_flags(pre.workouts@, pre.workout_selection, input),
        ..pre
    })
    &&& e == Effect::Nothing
}

/// "Add" is allowed: the edit buffer can be added and the list has room.
pub open spec fn add_allowed(pre: AppState) -> bool {
    addable_input(pre.workouts@, pre.workout_input) && pre.workouts@.len() < MAX_WORKOUTS
}

/// "Add": when allowed, the edit buffer is appended as a new entry, the
/// buffer is emptied and the list is saved; otherwise nothing changes.
pub open spec fn add_workout(pre: AppState, post: AppState, e: Effect) -> bool {
    if !add_allowed(pre) {
        post == pre && e == Effect::Nothing
    } else {
        &&& post.workouts@.len() == pre.workouts@.len() + 1
        &&& post.workouts@.drop_last() == pre.workouts@
        &&& post.workouts@.last().text == pre.workout_input->0
        &&& post == (AppState {
            workouts: post.workouts,
            workout_input: None,
            operation_flags: derived_flags(post.workouts@, pre.workout_selection, None),
            ..pre
        })
        &&& e == Effect::SaveWorkouts
    }
}

/// The position whose text "Update" replaces: the selected entry's, when the
/// edit buffer can become its text.
pub open spec fn update_target(pre: AppState) -> Option<int> {
    match pre.workout_selection {
        Some(w) => if updatable_input(pre.workouts@, w.id, pre.workout_input) {
            position_of(pre.workouts@, w.id)
        } else {
            None
        },
        None => None,
    }
}

/// "Update": the selected entry takes the edit buffer as its text, in place,
/// and the list is saved; without a target nothing changes.
pub open spec fn update_workout(pre: AppState, post: AppState, e: Effect) -> bool {
    match update_target(pre) {
        None => post == pre && e == Effect::Nothing,
        Some(p) => {
            &&& post.workouts@ == pre.workouts@.update(
                p,
                Workout { id: pre.workout_selection->0.id, text: pre.workout_input->0 },
            )
            &&& post == (AppState {
                workouts: post.workouts,
                operation_flags: derived_flags(
                    post.workouts@,
                    pre.workout_selection,
                    pre.workout_input,
                ),
                ..pre
            })
            &&& e == Effect::SaveWorkouts
        },
    }
}

/// Asking for confirmation of a destructive action.
pub open spec fn initiate(
    pre: AppState,
    topic: ConfirmationTopic,
    post: AppState,
    e: Effect,
) -> bool {
    post == (AppState { show_confirmation: Some(topic), ..pre }) && e == Effect::Nothing
}

/// The position of the selected entry.
pub open spec fn selected_position(pre: AppState) -> Option<int> {
    match pre.workout_selection {
        Some(w) => position_of(pre.workouts@, w.id),
        None => None,
    }
}

/// Deleting the selected entry: it leaves the list, the index follows
/// `index_after_deletion`, the selection and the edit buffer are dropped and
/// the list is saved; without a selected entry in the list nothing changes.
pub open spec fn delete_workout(pre: AppState, post: AppState, e: Effect) -> bool {
    match selected_position(pre) {
        None => post == pre && e == Effect::Nothing,
        Some(p) => {
            &&& post.workouts@ == pre.workouts@.remove(p)
            &&& post == (AppState {
                workouts: post.workouts,
                workout_index: index_after_deletion(pre.workout_index as int, p) as i8,
                workout_selection: None,
                workout_input: None,
                operation_flags: derived_flags(post.workouts@, None, None),
                ..pre
            })
            &&& e == Effect::SaveWorkouts
        },
    }
}

/// Clearing the list: no entries, index 0, selection and edit buffer dropped,
/// and the list is saved.
pub open spec fn clear_workouts(pre: AppState, post: AppState, e: Effect) -> bool {
    &&& post.workouts@.len() == 0
    &&& post == (AppState {
        workouts: post.workouts,
        workout_index: 0,
        workout_selection: None,
        workout_input: None,
        operation_flags: derived_flags(Seq::empty(), None, None),
        ..pre
    })
    &&& e == Effect::SaveWorkouts
}

/// Answering a confirmation prompt: the prompt closes, and a confirmed
/// prompt carries out the action that its topic names.
pub open spec fn close_confirmation(
    pre: AppState,
    payload: ConfirmationPayload,
    post: AppState,
    e: Effect,
) -> bool {
    let closed = AppState { show_confirmation: None, ..pre };
    if !payload.confirmed {
        post == closed && e == Effect::Nothing
    } else {
        match payload.topic {
            ConfirmationTopic::WorkoutDeletion => delete_workout(closed, post, e),
            ConfirmationTopic::Clearance => clear_workouts(closed, post, e),
        }
    }
}

/// The position of the selected entry when it can move up: it is not first.
pub open spec fn move_up_target(pre: AppState) -> Option<int> {
    match selected_position(pre) {
        Some(p) => if p > 0 {
            Some(p)
        } else {
            None
        },
        None => None,
    }
}

/// The position of the selected entry when it can move down: it is not last.
pub open spec fn move_down_target(pre: AppState) -> Option<int> {
    match selected_position(pre) {
        Some(p) => if p < pre.workouts@.len() - 1 {
            Some(p)
        } else {
            None
        },
        None => None,
    }
}

/// Moving the selected entry one place towards the front, or towards the
/// back: it changes places with its neighbour and the list is saved; at the
/// boundary, or without a selected entry in the list, nothing changes.
pub open spec fn move_workout(pre: AppState, up: bool, post: AppState, e: Effect) -> bool {
    let target = if up {
        move_up_target(pre)
    } else {
        move_down_target(pre)
    };
    match target {
        None => post == pre && e == Effect::Nothing,
        Some(p) => {
            &&& post.workouts@ == (if up {
                swapped(pre.workouts@, p - 1, p)
            } else {
                swapped(pre.workouts@, p, p + 1)
            })
            &&& post == (AppState {
                workouts: post.workouts,
                operation_flags: derived_flags(
                    post.workouts@,
                    pre.workout_selection,
                    pre.workout_input,
                ),
                ..pre
            })
            &&& e == Effect::SaveWorkouts
        },
    }
}

/// One event handled: the transition that the event names.
pub open spec fn step(pre: AppState, event: Event, post: AppState, e: Effect) -> bool {
    match event {
        Event::NextWorkout => next_workout(pre, post, e),
        Event::OpenSettings => open_settings(pre, post, e),
        Event::CloseSettings => close_settings(pre, post, e),
        Event::CloseConfirmationDialog(payload) => close_confirmation(pre, payload, post, e),
        Event::WorkoutSelection(chosen) => select_workout(pre, chosen, post, e),
        Event::WorkoutInput(input) => edit_input(pre, input, post, e),
        Event::AddWorkout => add_workout(pre, post, e),
        Event::UpdateWorkout => update_workout(pre, post, e),
        Event::InitiateWorkoutDeletion => initiate(
            pre,
            ConfirmationTopic::WorkoutDeletion,
            post,
            e,
        ),
        Event::InitiateClearance => initiate(pre, ConfirmationTopic::Clearance, post, e),
        Event::MoveWorkoutUp => move_workout(pre, true, post, e),
        Event::MoveWorkoutDown => move_workout(pre, false, post, e),
    }
}

impl AppState {
    /// The list fits the index type, the index is in range and the flags
    /// are the ones derived from the rest.
    pub open spec fn wf(&self) -> bool {
        &&& self.workouts@.len() <= MAX_WORKOUTS
        &&& index_in_range(self.workout_index as int, self.workouts@.len() as int)
        &&& self.operation_flags == derived_flags(
            self.workouts@,
            self.workout_selection,
            self.workout_input,
        )
    }

    /// The state at start-up, built from a stored state that passed
    /// validation: each text becomes an entry with a fresh identifier, on the
    /// main screen, with nothing selected or typed.
    pub fn new(state: WorkoutsState) -> (r: AppState)
        requires
            valid_workouts_state(state),
        ensures
            r.wf(),
            holds_state(r, state),
            r.current_page == Page::Main,
            r.show_confirmation is None,
            r.workout_selection is None,
            r.workout_input is None,
    {
        let mut workouts: Vec<Workout> = Vec::new();
        let mut i: usize = 0;
        while i < state.workouts.len()
            invariant
                i <= state.workouts@.len(),
                workouts@.len() == i,
                forall|k: int| 0 <= k < i ==> #[trigger] workouts@[k].text@ == state.workouts@[k]@,
            decreases state.workouts@.len() - i,
        {
            workouts.push(Workout::new(state.workouts[i].clone()));
            i = i + 1;
        }
        let mut r = AppState {
            workout_index: state.index,
            workouts,
            current_page: Page::Main,
            show_confirmation: None,
            workout_selection: None,
            workout_input: None,
            operation_flags: OperationFlags::empty(),
        };
        r.update_operation_flags();
        r
    }

    /// The stored form of the rotation: the index and the texts in order.
    pub fn workouts_state(&self) -> (r: WorkoutsState)
        ensures
            holds_state(*self, r),
    {
        let mut texts: Vec<String> = Vec::new();
        let mut i: usize = 0;
        while i < self.workouts.len()
            invariant
                i <= self.workouts@.len(),
                texts@.len() == i,
                forall|k: int| 0 <= k < i ==> #[trigger] texts@[k]@ == self.workouts@[k].text@,
            decreases self.workouts@.len() - i,
        {
            texts.push(self.workouts[i].text.clone());
            i = i + 1;
        }
        WorkoutsState { index: self.workout_index, workouts: texts }
    }

    /// What the main screen shows: the current entry's text, or "<empty>"
    /// for an empty list; "Next" only with more than one entry; the
    /// one-based number of the current entry (0 for an empty list) and the
    /// count.
    pub fn create_main_view_model(&self) -> (r: MainViewModel)
        requires
            self.wf(),
        ensures
            r.total == self.workouts@.len(),
            r.has_next == (self.workouts@.len() > 1),
            self.workouts@.len() == 0 ==> r.selected_number == 0 && r.workout@ == "<empty>"@,
            self.workouts@.len() > 0 ==> r.selected_number == self.workout_index + 1
                && r.workout@ == self.workouts@[self.workout_index as int].text@,
    {
        let total = self.workouts.len();
        if total == 0 {
            MainViewModel {
                workout: "<empty>".to_owned(),
                has_next: false,
                selected_number: 0,
                total,
            }
        } else {
            let i = self.workout_index as usize;
            MainViewModel {
                workout: self.workouts[i].text.clone(),
                has_next: total > 1,
                selected_number: self.workout_index + 1,
                total,
            }
        }
    }

    /// What the settings screen shows: copies of the list, the selection and
    /// the edit buffer, and the current flags.
    pub fn create_settings_view_model(&self) -> (r: SettingsViewModel<'_>)
        ensures
            r.workouts@ == self.workouts@,
            r.workout_selection == self.workout_selection,
            r.workout_input == self.workout_input,
            *r.operation_flags == self.operation_flags,
    {
        let workout_selection = match &self.workout_selection {
            Some(w) => Some(w.clone()),
            None => None,
        };
        let workout_input = match &self.workout_input {
            Some(s) => Some(s.clone()),
            None => None,
        };
        let workouts = self.workouts.clone();
        assert(workouts@ =~= self.workouts@);
        SettingsViewModel {
            workouts,
            workout_selection,
            workout_input,
            operation_flags: &self.operation_flags,
        }
    }

    /// The confirmation prompt on display, if any: clearing the list says
    /// what it removes, deleting an entry uses the prompt's default message.
    pub fn confirmation_payload(&self) -> (r: Option<ConfirmationPayload>)
        ensures
            match self.show_confirmation {
                None => r is None,
                Some(topic) => r is Some && r->0.topic == topic && !r->0.confirmed && match topic {
                    ConfirmationTopic::WorkoutDeletion => r->0.message is None,
                    ConfirmationTopic::Clearance => r->0.message is Some
                        && r->0.message->0@ == "Removing all workouts. Are you sure?"@,
                },
            },
    {
        match self.show_confirmation {
            None => None,
            Some(ConfirmationTopic::WorkoutDeletion) => Some(
                ConfirmationPayload::new(ConfirmationTopic::WorkoutDeletion, None),
            ),
            Some(ConfirmationTopic::Clearance) => Some(
                ConfirmationPayload::new(
                    ConfirmationTopic::Clearance,
                    Some("Removing all workouts. Are you sure?".to_owned()),
                ),
            ),
        }
    }

    /// Handles one event and says whether the list is to be saved.
    pub fn update(&mut self, event: Event) -> (e: Effect)
        requires
            old(self).wf(),
        ensures
            final(self).wf(),
            step(*old(self), event, *final(self), e),
    {
        match event {
            Event::NextWorkout => self.on_next_workout(),
            Event::OpenSettings => self.on_open_settings(),
            Event::CloseSettings => self.on_close_settings(),
            Event::CloseConfirmationDialog(payload) => self.on_close_confirmation_dialog(payload),
            Event::WorkoutSelection(workout_option) => self.on_workout_selection(workout_option),
            Event::WorkoutInput(input_option) => self.on_workout_input(input_option),
            Event::AddWorkout => self.on_add_workout(),
            Event::UpdateWorkout => self.on_update_workout(),
            Event::InitiateWorkoutDeletion => self.on_initiate_workout_deletion(),
            Event::InitiateClearance => self.on_initiate_clearance(),
            Event::MoveWorkoutUp => self.on_move_workout_up(),
            Event::MoveWorkoutDown => self.on_move_workout_down(),
        }
    }

    /// "Next": see `next_workout`.
    pub fn on_next_workout(&mut self) -> (e: Effect)
        requires
            old(self).wf(),
        ensures
            final(self).wf(),
            next_workout(*old(self), *final(self), e),
    {
        let count = self.workouts.len();
        if count > 0 {
            let next = (self.workout_index as usize + 1) % count;
            self.workout_index = next as i8;
            Effect::SaveWorkouts
        } else {
            Effect::Nothing
        }
    }

    /// Opens the settings screen: see `open_settings`.
    pub fn on_open_settings(&mut self) -> (e: Effect)
        requires
            old(self).wf(),
        ensures
            final(self).wf(),
            open_settings(*old(self), *final(self), e),
    {
        self.current_page = Page::Settings;
        Effect::Nothing
    }

    /// Closes the settings screen: see `close_settings`.
    pub fn on_close_settings(&mut self) -> (e: Effect)
        requires
            old(self).wf(),
        ensures
            final(self).wf(),
            close_settings(*old(self), *final(self), e),
    {
        self.current_page = Page::Main;
        self.reset_input();
        self.update_operation_flags();
        Effect::Nothing
    }

    /// Picks an entry of the list, or nothing: see `select_workout`.
    pub fn on_workout_selection(&mut self, workout_option: Option<Workout>) -> (e: Effect)
        requires
            old(self).wf(),
        ensures
            final(self).wf(),
            select_workout(*old(self), workout_option, *final(self), e),
    {
        let same = match (&self.workout_selection, &workout_option) {
            (Some(selected), Some(chosen)) => selected.id == chosen.id,
            _ => false,
        };
        self.workout_selection = if same {
            None
        } else {
            workout_option
        };
        match &self.workout_selection {
            Some(w) => {
                self.workout_input = Some(w.text.clone());
            },
            None => {},
        }
        self.update_operation_flags();
        Effect::Nothing
    }

    /// Stores what was typed into the edit buffer: see `edit_input`.
    pub fn on_workout_input(&mut self, workout_input: Option<String>) -> (e: Effect)
        requires
            old(self).wf(),
        ensures
            final(self).wf(),
            edit_input(*old(self), workout_input, *final(self), e),
    {
        self.workout_input = workout_input;
        self.update_operation_flags();
        Effect::Nothing
    }

    /// "Add": see `add_workout`. The new entry's identifier is drawn at random.
    pub fn on_add_workout(&mut self) -> (e: Effect)
        requires
            old(self).wf(),
        ensures
            final(self).wf(),
            add_workout(*old(self), *final(self), e),
    {
        let input = match self.get_valid_input() {
            None => return Effect::Nothing,
            Some(s) => s,
        };
        if self.workouts.len() >= MAX_WORKOUTS {
            return Effect::Nothing;
        }
        self.workouts.push(Workout::new(input));
        self.workout_input = None;
        self.update_operation_flags();
        assert(self.workouts@.drop_last() =~= old(self).workouts@);
        Effect::SaveWorkouts
    }

    /// "Update": see `update_workout`.
    pub fn on_update_workout(&mut self) -> (e: Effect)
        requires
            old(self).wf(),
        ensures
            final(self).wf(),
            update_workout(*old(self), *final(self), e),
    {
        let id = match &self.workout_selection {
            None => return Effect::Nothing,
            Some(w) => w.id,
        };
        let input = match self.get_valid_update_input(id) {
            None => return Effect::Nothing,
            Some(s) => s,
        };
        match find_position(&self.workouts, id) {
            None => Effect::Nothing,
            Some(p) => {
                self.workouts.set(p, Workout { id, text: input });
                self.update_operation_flags();
                Effect::SaveWorkouts
            },
        }
    }

    /// Asks for confirmation before deleting the selected entry.
    pub fn on_initiate_workout_deletion(&mut self) -> (e: Effect)
        requires
            old(self).wf(),
        ensures
            final(self).wf(),
            initiate(*old(self), ConfirmationTopic::WorkoutDeletion, *final(self), e),
    {
        self.show_confirmation = Some(ConfirmationTopic::WorkoutDeletion);
        Effect::Nothing
    }

    /// Asks for confirmation before clearing the list.
    pub fn on_initiate_clearance(&mut self) -> (e: Effect)
        requires
            old(self).wf(),
        ensures
            final(self).wf(),
            initiate(*old(self), ConfirmationTopic::Clearance, *final(self), e),
    {
        self.show_confirmation = Some(ConfirmationTopic::Clearance);
        Effect::Nothing
    }

    /// Answers the confirmation prompt: see `close_confirmation`.
    pub fn on_close_confirmation_dialog(&mut self, payload: ConfirmationPayload) -> (e: Effect)
        requires
            old(self).wf(),
        ensures
            final(self).wf(),
            close_confirmation(*old(self), payload, *final(self), e),
    {
        self.show_confirmation = None;
        if payload.confirmed {
            match payload.topic {
                ConfirmationTopic::WorkoutDeletion => self.delete_workout(),
                ConfirmationTopic::Clearance => self.clear_workouts(),
            }
        } else {
            Effect::Nothing
        }
    }

    /// Moves the selected entry one place towards the front: see
    /// `move_workout`.
    pub fn on_move_workout_up(&mut self) -> (e: Effect)
        requires
            old(self).wf(),
        ensures
            final(self).wf(),
            move_workout(*old(self), true, *final(self), e),
    {
        let id = match &self.workout_selection {
            None => return Effect::Nothing,
            Some(w) => w.id,
        };
        let position = match find_position(&self.workouts, id) {
            None => return Effect::Nothing,
            Some(p) => p,
        };
        if position == 0 {
            return Effect::Nothing;
        }
        let removed = self.workouts.remove(position);
        self.workouts.insert(position - 1, removed);
        assert(self.workouts@ =~= swapped(old(self).workouts@, position - 1, position as int));
        self.update_operation_flags();
        Effect::SaveWorkouts
    }

    /// Moves the selected entry one place towards the back: see
    /// `move_workout`.
    pub fn on_move_workout_down(&mut self) -> (e: Effect)
        requires
            old(self).wf(),
        ensures
            final(self).wf(),
            move_workout(*old(self), false, *final(self), e),
    {
        let id = match &self.workout_selection {
            None => return Effect::Nothing,
            Some(w) => w.id,
        };
        let position = match find_position(&self.workouts, id) {
            None => return Effect::Nothing,
            Some(p) => p,
        };
        if position + 1 >= self.workouts.len() {
            return Effect::Nothing;
        }
        let removed = self.workouts.remove(position);
        self.workouts.insert(position + 1, removed);
        assert(self.workouts@ =~= swapped(old(self).workouts@, position as int, position + 1));
        self.update_operation_flags();
        Effect::SaveWorkouts
    }

    /// Deletes the selected entry: see `delete_workout`.
    fn delete_workout(&mut self) -> (e: Effect)
        requires
            old(self).wf(),
        ensures
            final(self).wf(),
            delete_workout(*old(self), *final(self), e),
    {
        let id = match &self.workout_selection {
            None => return Effect::Nothing,
            Some(w) => w.id,
        };
        match find_position(&self.workouts, id) {
            None => Effect::Nothing,
            Some(position) => {
                self.workouts.remove(position);
                if position <= self.workout_index as usize && self.workout_index > 0 {
                    self.workout_index = self.workout_index - 1;
                }
                self.reset_input();
                self.update_operation_flags();
                Effect::SaveWorkouts
            },
        }
    }

    /// Empties the list: see `clear_workouts`.
    fn clear_workouts(&mut self) -> (e: Effect)
        requires
            old(self).wf(),
        ensures
            final(self).wf(),
            clear_workouts(*old(self), *final(self), e),
    {
        self.workouts.clear();
        self.workout_index = 0;
        self.reset_input();
        self.update_operation_flags();
        Effect::SaveWorkouts
    }

    /// Whether some entry shows exactly the text `t`.
    fn text_taken(&self, t: &String) -> (r: bool)
        ensures
            r == has_text(self.workouts@, t@),
    {
        let mut i: usize = 0;
        while i < self.workouts.len()
            invariant
                i <= self.workouts@.len(),
                forall|k: int| 0 <= k < i ==> #[trigger] self.workouts@[k].text@ != t@,
            decreases self.workouts@.len() - i,
        {
            if self.workouts[i].text == *t {
                return true;
            }
            i = i + 1;
        }
        false
    }

    /// Whether some entry with an identifier other than `id` shows exactly
    /// the text `t`.
    fn text_taken_by_other(&self, id: u128, t: &String) -> (r: bool)
        ensures
            r == other_has_text(self.workouts@, id, t@),
    {
        let mut i: usize = 0;
        while i < self.workouts.len()
            invariant
                i <= self.workouts@.len(),
                forall|k: int|
                    0 <= k < i ==> self.workouts@[k].id == id || #[trigger] self.workouts@[k].text@
                        != t@,
            decreases self.workouts@.len() - i,
        {
            if self.workouts[i].id != id && self.workouts[i].text == *t {
                return true;
            }
            i = i + 1;
        }
        false
    }

    /// The edit buffer is present and no entry shows the same text.
    pub fn has_unique_input(&self) -> (r: bool)
        ensures
            r == match self.workout_input {
                Some(s) => !has_text(self.workouts@, s@),
                None => false,
            },
    {
        match &self.workout_input {
            Some(s) => !self.text_taken(s),
            None => false,
        }
    }

    /// The edit buffer, when it can be added as a new entry.
    fn get_valid_input(&self) -> (r: Option<String>)
        ensures
            r == (if addable_input(self.workouts@, self.workout_input) {
                self.workout_input
            } else {
                None
            }),
    {
        match &self.workout_input {
            Some(s) => {
                if s.as_str().is_empty() || self.text_taken(s) {
                    None
                } else {
                    Some(s.clone())
                }
            },
            None => None,
        }
    }

    /// The edit buffer, when it can become the text of the entry with
    /// identifier `id`.
    fn get_valid_update_input(&self, id: u128) -> (r: Option<String>)
        ensures
            r == (if updatable_input(self.workouts@, id, self.workout_input) {
                self.workout_input
            } else {
                None
            }),
    {
        match &self.workout_input {
            Some(s) => {
                if s.as_str().is_empty() || self.text_taken_by_other(id, s) {
                    None
                } else {
                    Some(s.clone())
                }
            },
            None => None,
        }
    }

    /// Where the entry with the identifier of `workout` stands in the list.
    pub fn get_position(&self, workout: &Workout) -> (r: Option<usize>)
        ensures
            match r {
                Some(p) => position_of(self.workouts@, workout.id) == Some(p as int),
                None => position_of(self.workouts@, workout.id) is None,
            },
    {
        find_position(&self.workouts, workout.id)
    }

    /// Recomputes the enablement flags from the list, the selection and the
    /// edit buffer.
    fn update_operation_flags(&mut self)
        ensures
            *final(self) == (AppState {
                operation_flags: derived_flags(
                    old(self).workouts@,
                    old(self).workout_selection,
                    old(self).workout_input,
                ),
                ..*old(self)
            }),
    {
        let count = self.workouts.len();
        let can_add = self.get_valid_input().is_some() && count < MAX_WORKOUTS;
        let mut flags = OperationFlags::empty();
        flags.can_add = can_add;
        flags.can_clear = count > 0;
        match &self.workout_selection {
            Some(w) => {
                flags.can_update = self.get_valid_update_input(w.id).is_some();
                flags.can_delete = true;
                match find_position(&self.workouts, w.id) {
                    Some(p) => {
                        flags.can_move_up = p > 0;
                        flags.can_move_down = p + 1 < count;
                    },
                    None => {},
                }
            },
            None => {},
        }
        self.operation_flags = flags;
    }

    /// Drops the selection and the edit buffer.
    fn reset_input(&mut self)
        ensures
            *final(self) == (AppState {
                workout_selection: None,
                workout_input: None,
                ..*old(self)
            }),
    {
        self.workout_selection = None;
        self.workout_input = None;
    }
}

impl Default for AppState {
    /// An empty rotation on the main screen.
    fn default() -> (r: AppState)
        ensures
            r.wf(),
            r.workouts@.len() == 0,
            r.workout_index == 0,
            r.current_page == Page::Main,
            r.show_confirmation is None,
            r.workout_selection is None,
            r.workout_input is None,
    {
        AppState {
            workout_index: 0,
            workouts: Vec::new(),
            current_page: Page::Main,
            show_confirmation: None,
            workout_selection: None,
            workout_input: None,
            operation_flags: OperationFlags::empty(),
        }
    }
}

} // verus!
