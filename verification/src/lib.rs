//! Core runtime of a 2D game built around a player character made of
//! detachable body parts.
//!
//! The library models the game's per-tick logic as verified functions over
//! plain data: the body-part cursor and its cycling/detachment transitions,
//! movement resolution for the active part, proximity detection of
//! interactable entities, the typed interaction-event pipeline, and the
//! fixed-capacity inventory that gates door unlocking.  Window management,
//! asset loading, rendering, physics and raw input polling are external
//! collaborators: the engine shell hands this library abstracted input state
//! and spatial transforms, and applies the state changes it computes.

use vstd::prelude::*;

pub mod components_events;
pub mod movement;
pub mod session;
pub mod settings;
pub mod systems;

verus! {

/// Phases of a game session.  Only the `Running` phase executes the per-tick
/// gameplay systems; the earlier phases cover loading and setup, and `Pause`
/// suspends the pipeline.
#[derive(Debug, Clone, Eq, PartialEq, Hash, Structural)]
pub enum GameState {
    Loading,
    Setup,
    CameraSetup,
    MainMenu,
    Running,
    Pause,
}

} // verus!
