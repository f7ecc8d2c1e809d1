use crate::flags::OperationFlags;
use crate::workout::Workout;
use vstd::prelude::*;

verus! {

/// The screen on display.
#[derive(Clone, Copy, Debug, PartialEq, Eq, Structural)]
pub enum Page {
    Main,
    Settings,
}

/// What the main screen shows: the current entry's text, whether "Next" is
/// enabled, and the footer's "`selected_number` from `total`".
pub struct MainViewModel {
    pub workout: String,
    pub has_next: bool,
    pub selected_number: i8,
    pub total: usize,
}

/// What the settings screen shows: the list, the selected entry, the edit
/// buffer and which controls are enabled.
pub struct SettingsViewModel<'a> {
    pub workouts: Vec<Workout>,
    pub workout_selection: Option<Workout>,
    pub workout_input: Option<String>,
    pub operation_flags: &'a OperationFlags,
}

impl<'a> SettingsViewModel<'a> {
    /// The list item `workout` is drawn as the selected one.
    pub fn is_selected(&self, workout: &Workout) -> (r: bool)
        ensures
            r == match self.workout_selection {
                Some(w) => w.id == workout.id,
                None => false,
            },
    {
        match &self.workout_selection {
            Some(w) => w.id == workout.id,
            None => false,
        }
    }
}

} // verus!
