//! The turn controller: a three-state machine that says whose turn it is.
//!
//! An action delivered while the controller is not in the state that accepts
//! it is silently ignored — a deliberate policy, not an omission. No action
//! ever raises an error.
use vstd::prelude::*;

verus! {

/// Whose turn it is, or that a bullet is in flight. A single global value
/// with a single writer, the simulation loop.
#[derive(Clone, Copy, Debug, PartialEq, Eq, Structural)]
pub enum CurrentState {
    AITurn,
    BulletInFlight,
    PlayerTurn,
}

impl Default for CurrentState {
    /// A duel starts with the player's turn.
    fn default() -> (r: CurrentState)
        ensures
            r is PlayerTurn,
    {
        CurrentState::PlayerTurn
    }
}

/// The turn state after one evaluation of the transition conditions:
/// a fire action is accepted only during `PlayerTurn`, the grounding of the
/// in-flight bullet only during `BulletInFlight`, and a confirm action only
/// during `AITurn`; everything else is ignored.
pub open spec fn spec_next_turn(s: CurrentState, fire: bool, grounded: bool, confirm: bool) -> CurrentState {
    match s {
        CurrentState::PlayerTurn => if fire {
            CurrentState::BulletInFlight
        } else {
            CurrentState::PlayerTurn
        },
        CurrentState::BulletInFlight => if grounded {
            CurrentState::AITurn
        } else {
            CurrentState::BulletInFlight
        },
        CurrentState::AITurn => if confirm {
            CurrentState::PlayerTurn
        } else {
            CurrentState::AITurn
        },
    }
}

/// Applies at most one transition of the turn state machine, given this
/// tick's fire action, whether the in-flight bullet has grounded, and this
/// tick's confirm action.
pub fn next_turn(s: CurrentState, fire: bool, grounded: bool, confirm: bool) -> (r: CurrentState)
    ensures
        r == spec_next_turn(s, fire, grounded, confirm),
{
    match s {
        CurrentState::PlayerTurn => if fire {
            CurrentState::BulletInFlight
        } else {
            CurrentState::PlayerTurn
        },
        CurrentState::BulletInFlight => if grounded {
            CurrentState::AITurn
        } else {
            CurrentState::BulletInFlight
        },
        CurrentState::AITurn => if confirm {
            CurrentState::PlayerTurn
        } else {
            CurrentState::AITurn
        },
    }
}

} // verus!
