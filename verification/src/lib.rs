//! Game-client logic of a wave-based first-person shooter: weapons and ammunition,
//! shooting and reloading, the weapon shop, HUD texts, menu and game-flow state
//! transitions, settings, sound selection and enemy animation selection.
use vstd::prelude::*;

pub mod text;
pub mod weapons;
pub mod shooting;
pub mod shop;
pub mod flow;
pub mod hud;
pub mod settings;
pub mod audio;
pub mod enemy;
pub mod movement;
pub mod debug;
pub mod timer;

verus! {
} // verus!
