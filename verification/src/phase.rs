//! The game-phase state machine value.  Exactly one phase is active at a
//! time; it gates which simulation components run on a tick.

use vstd::prelude::*;

verus! {

/// The phases of a match.
///
/// - `Start`: initial splash menu, active from process startup.
/// - `MainMenu`: pause menu.
/// - `InGame`: the simulation is active.
/// - `Reset`: transient phase entered when a point is scored; it exits back
///   to `InGame` within the same tick and is never left standing.
/// - `Restart`: reserved exit requesting a full new match from the host; a
///   transition target only, never a running phase.
#[derive(Clone, Copy, Debug, PartialEq, Eq, Structural)]
pub enum GamePhase {
    Start,
    MainMenu,
    InGame,
    Reset,
    Restart,
}

impl GamePhase {
    /// Phases in which the host may hand the simulation a tick: the menus
    /// and active play.  `Reset` is transient and `Restart` asks the host
    /// for a full reinitialization, so a tick in either is a sequencing
    /// error of the host loop.
    pub open spec fn accepts_tick(self) -> bool {
        self is Start || self is MainMenu || self is InGame
    }

    /// Menu phases, in which menu interaction replaces the simulation.
    pub open spec fn is_menu(self) -> bool {
        self is Start || self is MainMenu
    }
}

} // verus!
