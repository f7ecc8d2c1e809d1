use workout_iterator::persistence::MAX_WORKOUTS;
use workout_iterator::{
    AppState, ConfirmationPayload, ConfirmationTopic, Effect, Event, OperationFlags, Page,
    Workout, WorkoutsState,
};

fn state_of(texts: &[&str], index: i8) -> AppState {
    AppState::new(WorkoutsState {
        index,
        workouts: texts.iter().map(|t| t.to_string()).collect(),
    })
}

fn texts(state: &AppState) -> Vec<String> {
    state.workouts.iter().map(|w| w.text.clone()).collect()
}

fn select(state: &mut AppState, position: usize) {
    let chosen = state.workouts[position].clone();
    state.update(Event::WorkoutSelection(Some(chosen)));
}

fn confirmed(topic: ConfirmationTopic) -> ConfirmationPayload {
    ConfirmationPayload::new(topic, None).confirm()
}

#[test]
fn test_has_unique_input_given_unique_input_should_be_true() {
    let state = AppState {
        workouts: vec![
            Workout::new(String::from("workout1")),
            Workout::new(String::from("workout2")),
        ],
        workout_input: Some(String::from("workout3")),
        ..AppState::default()
    };
    assert!(state.has_unique_input())
}

#[test]
fn test_has_unique_input_given_existing_input_should_be_false() {
    let state = AppState {
        workouts: vec![
            Workout::new(String::from("workout1")),
            Workout::new(String::from("workout2")),
        ],
        workout_input: Some(String::from("workout2")),
        ..AppState::default()
    };
    assert!(!state.has_unique_input())
}

#[test]
fn next_cycles_through_every_position_and_back() {
    let mut state = state_of(&["a", "b", "c"], 1);
    let mut seen = vec![];
    for _ in 0..3 {
        assert_eq!(state.update(Event::NextWorkout), Effect::SaveWorkouts);
        seen.push(state.workout_index);
    }
    assert_eq!(seen, vec![2, 0, 1]);
}

#[test]
fn next_on_empty_list_does_nothing() {
    let mut state = AppState::default();
    assert_eq!(state.update(Event::NextWorkout), Effect::Nothing);
    assert_eq!(state.workout_index, 0);
    assert!(state.workouts.is_empty());
}

#[test]
fn add_rejects_existing_text_and_accepts_other_case() {
    let mut state = state_of(&["Squats"], 0);
    state.update(Event::WorkoutInput(Some("Squats".to_string())));
    assert!(!state.operation_flags.can_add);
    assert_eq!(state.update(Event::AddWorkout), Effect::Nothing);
    assert_eq!(texts(&state), vec!["Squats"]);
    state.update(Event::WorkoutInput(Some("squats".to_string())));
    assert!(state.operation_flags.can_add);
    assert_eq!(state.update(Event::AddWorkout), Effect::SaveWorkouts);
    assert_eq!(texts(&state), vec!["Squats", "squats"]);
    assert_eq!(state.workout_input, None);
    assert!(!state.operation_flags.can_add);
}

#[test]
fn add_rejects_empty_text() {
    let mut state = state_of(&["Squats"], 0);
    state.update(Event::WorkoutInput(Some(String::new())));
    assert!(!state.operation_flags.can_add);
    assert_eq!(state.update(Event::AddWorkout), Effect::Nothing);
    assert_eq!(texts(&state), vec!["Squats"]);
    state.update(Event::WorkoutInput(None));
    assert_eq!(state.update(Event::AddWorkout), Effect::Nothing);
    assert_eq!(state.workouts.len(), 1);
}

#[test]
fn add_rejects_when_the_list_is_full() {
    let names: Vec<String> = (0..MAX_WORKOUTS).map(|i| format!("w{}", i)).collect();
    let refs: Vec<&str> = names.iter().map(|s| s.as_str()).collect();
    let mut state = state_of(&refs, 0);
    state.update(Event::WorkoutInput(Some("one more".to_string())));
    assert!(!state.operation_flags.can_add);
    assert_eq!(state.update(Event::AddWorkout), Effect::Nothing);
    assert_eq!(state.workouts.len(), MAX_WORKOUTS);
}

#[test]
fn update_rejects_text_of_another_entry() {
    let mut state = state_of(&["Squats", "Lunges"], 0);
    select(&mut state, 0);
    state.update(Event::WorkoutInput(Some("Lunges".to_string())));
    assert!(!state.operation_flags.can_update);
    assert_eq!(state.update(Event::UpdateWorkout), Effect::Nothing);
    assert_eq!(texts(&state), vec!["Squats", "Lunges"]);
}

#[test]
fn update_to_own_text_succeeds() {
    let mut state = state_of(&["Squats", "Lunges"], 0);
    select(&mut state, 1);
    assert_eq!(state.workout_input, Some("Lunges".to_string()));
    assert!(state.operation_flags.can_update);
    assert_eq!(state.update(Event::UpdateWorkout), Effect::SaveWorkouts);
    assert_eq!(texts(&state), vec!["Squats", "Lunges"]);
}

#[test]
fn update_replaces_text_in_place() {
    let mut state = state_of(&["Squats", "Lunges", "Planks"], 2);
    select(&mut state, 1);
    let id = state.workouts[1].id;
    state.update(Event::WorkoutInput(Some("Burpees".to_string())));
    assert_eq!(state.update(Event::UpdateWorkout), Effect::SaveWorkouts);
    assert_eq!(texts(&state), vec!["Squats", "Burpees", "Planks"]);
    assert_eq!(state.workouts[1].id, id);
    assert_eq!(state.workout_index, 2);
}

#[test]
fn selecting_twice_clears_the_selection() {
    let mut state = state_of(&["Squats", "Lunges"], 0);
    state.update(Event::OpenSettings);
    select(&mut state, 0);
    assert!(state.workout_selection.is_some());
    assert_eq!(state.workout_input, Some("Squats".to_string()));
    assert_eq!(
        state.operation_flags,
        OperationFlags {
            can_add: false,
            can_update: true,
            can_delete: true,
            can_clear: true,
            can_move_up: false,
            can_move_down: true,
        }
    );
    select(&mut state, 0);
    assert!(state.workout_selection.is_none());
    assert!(!state.operation_flags.can_delete);
    select(&mut state, 1);
    let view = state.create_settings_view_model();
    assert!(view.is_selected(&state.workouts[1]));
    assert!(!view.is_selected(&state.workouts[0]));
}

#[test]
fn delete_at_or_before_index_moves_index_back() {
    let mut state = state_of(&["a", "b", "c"], 2);
    select(&mut state, 1);
    state.update(Event::InitiateWorkoutDeletion);
    assert_eq!(state.show_confirmation, Some(ConfirmationTopic::WorkoutDeletion));
    let e = state.update(Event::CloseConfirmationDialog(confirmed(ConfirmationTopic::WorkoutDeletion)));
    assert_eq!(e, Effect::SaveWorkouts);
    assert_eq!(texts(&state), vec!["a", "c"]);
    assert_eq!(state.workout_index, 1);
    assert_eq!(state.show_confirmation, None);
    assert!(state.workout_selection.is_none());
    assert_eq!(state.workout_input, None);
}

#[test]
fn delete_of_current_first_entry_keeps_index_zero() {
    let mut state = state_of(&["a", "b"], 0);
    select(&mut state, 0);
    state.update(Event::CloseConfirmationDialog(confirmed(ConfirmationTopic::WorkoutDeletion)));
    assert_eq!(texts(&state), vec!["b"]);
    assert_eq!(state.workout_index, 0);
}

#[test]
fn delete_after_index_keeps_index() {
    let mut state = state_of(&["a", "b", "c"], 0);
    select(&mut state, 2);
    state.update(Event::CloseConfirmationDialog(confirmed(ConfirmationTopic::WorkoutDeletion)));
    assert_eq!(texts(&state), vec!["a", "b"]);
    assert_eq!(state.workout_index, 0);
}

#[test]
fn cancelled_confirmation_changes_nothing_else() {
    let mut state = state_of(&["a", "b"], 1);
    select(&mut state, 0);
    state.update(Event::InitiateClearance);
    let payload = state.confirmation_payload().unwrap();
    assert_eq!(payload.message, Some("Removing all workouts. Are you sure?".to_string()));
    assert!(!payload.confirmed);
    assert_eq!(state.update(Event::CloseConfirmationDialog(payload)), Effect::Nothing);
    assert_eq!(state.show_confirmation, None);
    assert_eq!(texts(&state), vec!["a", "b"]);
    assert!(state.workout_selection.is_some());
}

#[test]
fn clearance_empties_the_list() {
    let mut state = state_of(&["a", "b"], 1);
    state.update(Event::InitiateClearance);
    let e = state.update(Event::CloseConfirmationDialog(confirmed(ConfirmationTopic::Clearance)));
    assert_eq!(e, Effect::SaveWorkouts);
    assert!(state.workouts.is_empty());
    assert_eq!(state.workout_index, 0);
    assert!(!state.operation_flags.can_clear);
}

#[test]
fn move_at_boundaries_does_nothing() {
    let mut state = state_of(&["a", "b", "c"], 0);
    select(&mut state, 0);
    assert!(!state.operation_flags.can_move_up);
    assert_eq!(state.update(Event::MoveWorkoutUp), Effect::Nothing);
    select(&mut state, 2);
    assert!(!state.operation_flags.can_move_down);
    assert_eq!(state.update(Event::MoveWorkoutDown), Effect::Nothing);
    assert_eq!(texts(&state), vec!["a", "b", "c"]);
}

#[test]
fn move_swaps_with_neighbour_and_selection_follows() {
    let mut state = state_of(&["a", "b", "c"], 0);
    select(&mut state, 1);
    assert_eq!(state.update(Event::MoveWorkoutUp), Effect::SaveWorkouts);
    assert_eq!(texts(&state), vec!["b", "a", "c"]);
    assert_eq!(state.get_position(&state.workout_selection.clone().unwrap()), Some(0));
    assert!(!state.operation_flags.can_move_up);
    assert_eq!(state.update(Event::MoveWorkoutDown), Effect::SaveWorkouts);
    assert_eq!(state.update(Event::MoveWorkoutDown), Effect::SaveWorkouts);
    assert_eq!(texts(&state), vec!["a", "c", "b"]);
    assert_eq!(state.get_position(&state.workout_selection.clone().unwrap()), Some(2));
    assert_eq!(state.workout_index, 0);
}

#[test]
fn closing_settings_resets_input() {
    let mut state = state_of(&["a"], 0);
    state.update(Event::OpenSettings);
    assert_eq!(state.current_page, Page::Settings);
    select(&mut state, 0);
    state.update(Event::WorkoutInput(Some("x".to_string())));
    state.update(Event::CloseSettings);
    assert_eq!(state.current_page, Page::Main);
    assert!(state.workout_selection.is_none());
    assert_eq!(state.workout_input, None);
    assert!(!state.operation_flags.can_update);
}

#[test]
fn saved_state_loads_back_identically() {
    let mut state = state_of(&["Squats", "Lunges", "Planks"], 0);
    state.update(Event::NextWorkout);
    let stored = state.workouts_state();
    assert_eq!(stored.index, 1);
    assert_eq!(stored.workouts, vec!["Squats", "Lunges", "Planks"]);
    let loaded = AppState::new(stored);
    assert_eq!(loaded.workout_index, state.workout_index);
    assert_eq!(texts(&loaded), texts(&state));
}

#[test]
fn main_view_model_of_empty_and_filled_lists() {
    let empty = AppState::default().create_main_view_model();
    assert_eq!(empty.workout, "<empty>");
    assert_eq!(empty.selected_number, 0);
    assert_eq!(empty.total, 0);
    assert!(!empty.has_next);
    let view = state_of(&["Squats", "Lunges"], 1).create_main_view_model();
    assert_eq!(view.workout, "Lunges");
    assert_eq!(view.selected_number, 2);
    assert_eq!(view.total, 2);
    assert!(view.has_next);
    let single = state_of(&["Squats"], 0).create_main_view_model();
    assert!(!single.has_next);
}

#[test]
fn deletion_prompt_has_default_message() {
    let mut state = state_of(&["a"], 0);
    assert!(state.confirmation_payload().is_none());
    state.update(Event::InitiateWorkoutDeletion);
    let payload = state.confirmation_payload().unwrap();
    assert_eq!(payload.topic, ConfirmationTopic::WorkoutDeletion);
    assert_eq!(payload.message, None);
}

#[test]
fn example_session() {
    let mut state = state_of(&["Squats", "Lunges"], 0);
    state.update(Event::NextWorkout);
    assert_eq!(state.workout_index, 1);
    assert_eq!(state.create_main_view_model().workout, "Lunges");
    state.update(Event::OpenSettings);
    state.update(Event::WorkoutInput(Some("Pushups".to_string())));
    assert_eq!(state.update(Event::AddWorkout), Effect::SaveWorkouts);
    assert_eq!(texts(&state), vec!["Squats", "Lunges", "Pushups"]);
    assert_eq!(state.workout_index, 1);
    select(&mut state, 1);
    state.update(Event::InitiateWorkoutDeletion);
    state.update(Event::CloseConfirmationDialog(confirmed(ConfirmationTopic::WorkoutDeletion)));
    assert_eq!(texts(&state), vec!["Squats", "Pushups"]);
    assert_eq!(state.workout_index, 0);
}
