//! Turn-level actions a participant can take on the board.

use vstd::prelude::*;

use crate::fields::FieldId;

verus! {

/// A turn-based action initiated by a participant, independent of the rule
/// set in force.
#[derive(Debug, Clone, Copy, PartialEq, Eq, Structural)]
pub enum TurnAction {
    /// Place a number of units onto a field.
    Place { to: FieldId, count: u32 },
    /// Interact with a neighboring field according to the active rules.
    Interact { from: FieldId, to: FieldId },
    /// Move units from one field to another.
    Move { from: FieldId, to: FieldId, count: u32 },
    /// End the current participant's turn.
    EndTurn,
}

} // verus!
