use vstd::prelude::*;

verus! {

/// Which controls of the settings screen are enabled. The values are derived
/// from the application state after each change and never stored.
#[derive(Clone, Copy, Debug, PartialEq, Eq, Structural)]
pub struct OperationFlags {
    pub can_add: bool,
    pub can_update: bool,
    pub can_delete: bool,
    pub can_clear: bool,
    pub can_move_up: bool,
    pub can_move_down: bool,
}

impl OperationFlags {
    /// Every control disabled.
    pub fn empty() -> (r: OperationFlags)
        ensures
            !r.can_add,
            !r.can_update,
            !r.can_delete,
            !r.can_clear,
            !r.can_move_up,
            !r.can_move_down,
    {
        OperationFlags {
            can_add: false,
            can_update: false,
            can_delete: false,
            can_clear: false,
            can_move_up: false,
            can_move_down: false,
        }
    }
}

} // verus!
