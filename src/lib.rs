//! State and rules of a small workout rotation: an ordered list of workout
//! texts, the entry currently shown, the editing screen's transient state
//! and the enablement flags derived from it.

pub mod app_state;
pub mod confirmation_dialog;
pub mod flags;
pub mod helper;
pub mod laws;
pub mod persistence;
pub mod ui;
pub mod workout;

pub use app_state::{AppState, Effect, Event};
pub use confirmation_dialog::{ConfirmationPayload, ConfirmationTopic};
pub use flags::OperationFlags;
pub use helper::is_ui_dev;
pub use persistence::{validate_workouts_state, WorkoutsState};
pub use ui::{MainViewModel, Page, SettingsViewModel};
pub use workout::Workout;
