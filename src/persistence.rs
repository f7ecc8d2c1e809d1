use vstd::prelude::*;

verus! {

/// The largest number of entries the rotation holds: the stored index is an
/// `i8`, so this is the count whose positions it can all name.
pub const MAX_WORKOUTS: usize = 127;

/// The persisted form of the rotation: the current index and the entry
/// texts in order.
pub struct WorkoutsState {
    pub index: i8,
    pub workouts: Vec<String>,
}

impl Default for WorkoutsState {
    /// An empty list at index 0: what is stored when nothing was stored yet.
    fn default() -> (r: WorkoutsState)
        ensures
            r.index == 0,
            r.workouts@.len() == 0,
    {
        WorkoutsState { index: 0, workouts: Vec::new() }
    }
}

/// The current index `index` fits a list of `count` entries: it names an
/// entry of a non-empty list, and is 0 for an empty one.
pub open spec fn index_in_range(index: int, count: int) -> bool {
    &&& index >= 0
    &&& count == 0 ==> index == 0
    &&& count > 0 ==> index < count
}

/// A stored state that can be loaded: its index is in range and its list
/// is no longer than `MAX_WORKOUTS`.
pub open spec fn valid_workouts_state(state: WorkoutsState) -> bool {
    &&& index_in_range(state.index as int, state.workouts@.len() as int)
    &&& state.workouts@.len() <= MAX_WORKOUTS
}

pub const INDEX_OUT_OF_RANGE: &'static str = "invalid workouts.json: index out of range";

pub const TOO_MANY_WORKOUTS: &'static str = "invalid workouts.json: too many workouts";

/// Checks a loaded state: rejects a negative index, a non-zero index with an
/// empty list, an index at or past the end of a non-empty list, and a list
/// longer than `MAX_WORKOUTS`.
pub fn validate_workouts_state(workouts_state: &WorkoutsState) -> (r: Result<(), &'static str>)
    ensures
        r is Ok <==> valid_workouts_state(*workouts_state),
        !index_in_range(workouts_state.index as int, workouts_state.workouts@.len() as int)
            ==> r == Err::<(), &str>(INDEX_OUT_OF_RANGE),
        index_in_range(workouts_state.index as int, workouts_state.workouts@.len() as int)
            && workouts_state.workouts@.len() > MAX_WORKOUTS ==> r == Err::<(), &str>(
            TOO_MANY_WORKOUTS,
        ),
{
    let count = workouts_state.workouts.len();
    let i = workouts_state.index;
    if i < 0 || (count == 0 && i != 0) || (count > 0 && i as usize >= count) {
        Err(INDEX_OUT_OF_RANGE)
    } else if count > MAX_WORKOUTS {
        Err(TOO_MANY_WORKOUTS)
    } else {
        Ok(())
    }
}

/// The line that the error log holds for `message` logged at `timestamp`.
pub fn error_log_line(timestamp: &str, message: &str) -> (r: String)
    ensures
        r@ == timestamp@ + "  -  "@ + message@,
{
    let mut line = timestamp.to_owned();
    line.append("  -  ");
    line.append(message);
    line
}

} // verus!
