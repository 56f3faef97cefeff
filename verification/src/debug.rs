//! The switches of the developer menu.
use vstd::prelude::*;

verus! {

/// The developer menu's switches.
#[derive(Clone, Copy, Debug, PartialEq, Eq, Structural)]
pub struct AppDebugState {
    pub show_physics_gizmos: bool,
    pub show_nav_mesh: bool,
    pub show_enemy_debug_info: bool,
    pub show_states_overlay: bool,
    pub invincibility: bool,
}

impl AppDebugState {
    /// Every switch off.
    pub fn new() -> (s: AppDebugState)
        ensures
            !s.show_physics_gizmos,
            !s.show_nav_mesh,
            !s.show_enemy_debug_info,
            !s.show_states_overlay,
            !s.invincibility,
    {
        AppDebugState {
            show_physics_gizmos: false,
            show_nav_mesh: false,
            show_enemy_debug_info: false,
            show_states_overlay: false,
            invincibility: false,
        }
    }
}

/// Enemy debug texts are shown exactly when enemy debug info is switched on.
pub fn enemy_debug_text_visible(state: &AppDebugState) -> (visible: bool)
    ensures
        visible == state.show_enemy_debug_info,
{
    state.show_enemy_debug_info
}

} // verus!
