//! The persistent state of one game session.
//!
//! A [`GameState`] records the participants, whose turn it is, the coarse
//! game phase, and the ownership and unit count of every field. Persisting a
//! state to storage is an external concern; this module only models the
//! value.

use vstd::prelude::*;

verus! {

/// The coarse phase a game session is in.
#[derive(Debug, Clone, Copy, PartialEq, Eq, Structural)]
pub enum GamePhase {
    Setup,
    Place,
    Interact,
    Move,
    End,
}

/// One participant of a game session.
#[derive(Debug, PartialEq, Eq)]
pub struct Participant {
    /// Unique identifier of the participant.
    pub id: u32,
    /// Display name of the participant.
    pub name: String,
    /// Whether the participant is still in the game.
    pub active: bool,
    /// Units the participant may still place.
    pub available_units: u32,
}

/// The runtime status of one field: who owns it and with how many units.
#[derive(Debug, Clone, Copy, PartialEq, Eq)]
pub struct FieldStatus {
    /// The owning participant, if any.
    pub owner_id: Option<u32>,
    /// Units standing on the field.
    pub units: u32,
}

/// The complete state of one game session.
#[derive(Debug, PartialEq, Eq)]
pub struct GameState {
    /// The participants, in turn order.
    pub participants: Vec<Participant>,
    /// Index into `participants` of the participant whose turn it is.
    pub current_participant: usize,
    /// The coarse phase the session is in.
    pub phase: GamePhase,
    /// The status of every field, keyed by field id.
    pub fields: Vec<(u64, FieldStatus)>,
}

impl GameState {
    /// A fresh game state over the given field ids: every field unowned and
    /// empty, the first participant to move, the session in setup.
    #[verifier::loop_isolation(false)]
    pub fn new(field_ids: &Vec<u64>, participants: Vec<Participant>) -> (s: GameState)
        ensures
            s.participants == participants,
            s.current_participant == 0,
            s.phase == GamePhase::Setup,
            s.fields@.len() == field_ids@.len(),
            forall|i: int|
                0 <= i < field_ids@.len() ==> #[trigger] s.fields@[i] == (
                field_ids@[i],
                FieldStatus { owner_id: None, units: 0 },
            ),
    {
        let n = field_ids.len();
        let mut fields: Vec<(u64, FieldStatus)> = Vec::new();
        let mut i: usize = 0;
        while i < n
            invariant
                0 <= i <= n,
                fields@.len() == i,
                forall|k: int|
                    0 <= k < i ==> #[trigger] fields@[k] == (
                    field_ids@[k],
                    FieldStatus { owner_id: None, units: 0 },
                ),
            decreases n - i,
        {
            fields.push((field_ids[i], FieldStatus { owner_id: None, units: 0 }));
            i += 1;
        }
        GameState { participants, current_participant: 0, phase: GamePhase::Setup, fields }
    }
}

} // verus!
