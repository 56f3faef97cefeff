//! The decisions of the character controller and the camera mode.
use vstd::prelude::*;

verus! {

/// Whether the camera follows the player or flies freely.
#[derive(Clone, Copy, Debug, PartialEq, Eq, Structural)]
pub enum PlayerCameraState {
    Normal,
    FreeCam,
}

pub open spec fn spec_toggle_camera(s: PlayerCameraState) -> PlayerCameraState {
    match s {
        PlayerCameraState::Normal => PlayerCameraState::FreeCam,
        PlayerCameraState::FreeCam => PlayerCameraState::Normal,
    }
}

/// What the free-camera key does.
#[derive(Clone, Copy, Debug, PartialEq, Eq, Structural)]
pub struct FreeCamToggle {
    /// The camera mode afterwards.
    pub next_state: PlayerCameraState,
    /// The player's velocity is set to zero.
    pub zero_player_velocity: bool,
    /// Every existing camera is despawned.
    pub despawn_all_cameras: bool,
    /// `Some(h)`: a free camera is spawned `h` millimetres above the player's position,
    /// removed when the game is left.
    pub spawn_free_camera_above_player_mm: Option<u32>,
    /// The player camera is requested again for the player.
    pub request_player_camera: bool,
}

/// Height of a newly spawned free camera above the player, in millimetres.
pub const FREE_CAMERA_HEIGHT_MM: u32 = 2000;

pub open spec fn spec_freecam_toggle(s: PlayerCameraState) -> FreeCamToggle {
    match s {
        PlayerCameraState::Normal => FreeCamToggle {
            next_state: PlayerCameraState::FreeCam,
            zero_player_velocity: true,
            despawn_all_cameras: true,
            spawn_free_camera_above_player_mm: Some(FREE_CAMERA_HEIGHT_MM),
            request_player_camera: false,
        },
        PlayerCameraState::FreeCam => FreeCamToggle {
            next_state: PlayerCameraState::Normal,
            zero_player_velocity: true,
            despawn_all_cameras: true,
            spawn_free_camera_above_player_mm: None,
            request_player_camera: true,
        },
    }
}

/// The free-camera key stops the player, removes all cameras and switches mode: into the
/// free camera, spawned above the player, or back to the player camera, which is then
/// requested again. Without the key nothing happens.
pub fn toggle_freecam(s: PlayerCameraState, key_just_pressed: bool) -> (t: Option<FreeCamToggle>)
    ensures
        t == (if key_just_pressed { Some(spec_freecam_toggle(s)) } else { None }),
        t matches Some(x) ==> x.next_state == spec_toggle_camera(s),
{
    if !key_just_pressed {
        return None;
    }
    match s {
        PlayerCameraState::Normal => Some(FreeCamToggle {
            next_state: PlayerCameraState::FreeCam,
            zero_player_velocity: true,
            despawn_all_cameras: true,
            spawn_free_camera_above_player_mm: Some(FREE_CAMERA_HEIGHT_MM),
            request_player_camera: false,
        }),
        PlayerCameraState::FreeCam => Some(FreeCamToggle {
            next_state: PlayerCameraState::Normal,
            zero_player_velocity: true,
            despawn_all_cameras: true,
            spawn_free_camera_above_player_mm: None,
            request_player_camera: true,
        }),
    }
}

/// Switching the camera twice restores it.
pub proof fn lemma_toggle_freecam_involutive(s: PlayerCameraState)
    ensures
        spec_toggle_camera(spec_toggle_camera(s)) == s,
        spec_toggle_camera(s) != s,
        spec_freecam_toggle(spec_freecam_toggle(s).next_state).next_state == s,
{
}

/// The movement keys held, and the jump key pressed, in one frame.
#[derive(Clone, Copy, Debug, PartialEq, Eq, Structural)]
pub struct MovementKeys {
    pub forward: bool,
    pub left: bool,
    pub backward: bool,
    pub right: bool,
    pub sprint: bool,
    pub jump_just_pressed: bool,
}

/// What the player asks the character controller to do: walk along the camera's flat
/// forward and right axes (each -1, 0 or 1), at running or walking speed, and jump.
#[derive(Clone, Copy, Debug, PartialEq, Eq, Structural)]
pub struct MovementIntent {
    pub forward_axis: i8,
    pub right_axis: i8,
    pub run: bool,
    pub jump: bool,
    pub sprinting: bool,
}

pub open spec fn axis(positive: bool, negative: bool) -> int {
    (if positive { 1int } else { 0int }) - (if negative { 1int } else { 0int })
}

/// The player's movement request, or nothing while the free camera is active.
/// Sprinting runs unless a reload is going on.
pub fn handle_keyboard_input_for_player(
    camera: PlayerCameraState,
    keys: MovementKeys,
    reloading: bool,
) -> (intent: Option<MovementIntent>)
    ensures
        camera == PlayerCameraState::FreeCam ==> intent is None,
        camera == PlayerCameraState::Normal ==> intent == Some(MovementIntent {
            forward_axis: axis(keys.forward, keys.backward) as i8,
            right_axis: axis(keys.right, keys.left) as i8,
            run: keys.sprint && !reloading,
            jump: keys.jump_just_pressed,
            sprinting: keys.sprint,
        }),
{
    if camera == PlayerCameraState::FreeCam {
        return None;
    }
    let mut forward_axis: i8 = 0;
    let mut right_axis: i8 = 0;
    if keys.forward {
        forward_axis = forward_axis + 1;
    }
    if keys.left {
        right_axis = right_axis - 1;
    }
    if keys.right {
        right_axis = right_axis + 1;
    }
    if keys.backward {
        forward_axis = forward_axis - 1;
    }
    Some(MovementIntent {
        forward_axis,
        right_axis,
        run: keys.sprint && !reloading,
        jump: keys.jump_just_pressed,
        sprinting: keys.sprint,
    })
}

/// A movement request is sent when the player jumps, or moves along some axis.
pub fn intent_moves(intent: &MovementIntent) -> (moves: bool)
    ensures
        moves == (intent.forward_axis != 0 || intent.right_axis != 0),
{
    intent.forward_axis != 0 || intent.right_axis != 0
}

/// A character is on the ground exactly when the downward shape cast hits something.
pub fn update_grounded(downward_hit_count: usize) -> (grounded: bool)
    ensures
        grounded == (downward_hit_count > 0),
{
    downward_hit_count != 0
}

/// A grounded player without movement input slows down.
pub fn apply_movement_damping(keys: &MovementKeys, grounded: bool) -> (damp: bool)
    ensures
        damp == (!(keys.forward || keys.left || keys.backward || keys.right) && grounded),
{
    let any_movement_input = keys.forward || keys.left || keys.backward || keys.right;
    !any_movement_input && grounded
}


} // verus!
