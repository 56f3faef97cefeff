//! Which sound file to play for game events.
use vstd::prelude::*;
use rand::Rng;
use crate::weapons::{AimType, WeaponKind};

verus! {

pub const BASE_PATH_TO_ASSAULT_RIFLE_SOUNDS: &'static str = "sfx/weapons/assault_rifle/";
pub const BASE_PATH_TO_PISTOL_SOUNDS: &'static str = "sfx/weapons/pistol_walther_p38/";
pub const BASE_PATH_TO_WEAPON_SOUNDS: &'static str = "sfx/weapons/";

pub const HOVER_UI_SFX: &'static str = "sfx/ui/Hover - 1.ogg";
pub const SELECT_UI_SFX: &'static str = "sfx/ui/Select - 2.ogg";
pub const ERROR_UI_SFX: &'static str = "sfx/ui/Error - 1.ogg";

pub const FOOTSTEP_CONCRETE_1: &'static str = "sfx/footsteps/FootstepsConcrete1.ogg";
pub const FOOTSTEP_CONCRETE_2: &'static str = "sfx/footsteps/FootstepsConcrete2.ogg";
pub const FOOTSTEP_CONCRETE_3: &'static str = "sfx/footsteps/FootstepsConcrete3.ogg";
pub const FOOTSTEP_CONCRETE_4: &'static str = "sfx/footsteps/FootstepsConcrete4.ogg";

/// The shot sound of a weapon kind.
pub open spec fn spec_shoot_sound_path(kind: WeaponKind) -> Seq<char> {
    match kind {
        WeaponKind::AK47 => BASE_PATH_TO_ASSAULT_RIFLE_SOUNDS@ + "shoot.mp3"@,
        WeaponKind::Glock => BASE_PATH_TO_PISTOL_SOUNDS@ + "shoot.ogg"@,
        _ => BASE_PATH_TO_WEAPON_SOUNDS@ + "smg/shoot.mp3"@,
    }
}

pub fn shoot_sound_path(kind: WeaponKind) -> (path: String)
    requires
        kind != WeaponKind::SniperRifle,
    ensures
        path@ == spec_shoot_sound_path(kind),
{
    match kind {
        WeaponKind::AK47 => String::from_str(BASE_PATH_TO_ASSAULT_RIFLE_SOUNDS).concat("shoot.mp3"),
        WeaponKind::Glock => String::from_str(BASE_PATH_TO_PISTOL_SOUNDS).concat("shoot.ogg"),
        _ => String::from_str(BASE_PATH_TO_WEAPON_SOUNDS).concat("smg/shoot.mp3"),
    }
}

/// The sound of drawing a weapon: the pistol's for the Glock, the rifle's otherwise.
pub open spec fn spec_equip_sound_path(kind: WeaponKind) -> Seq<char> {
    match kind {
        WeaponKind::Glock => BASE_PATH_TO_PISTOL_SOUNDS@ + "equip.ogg"@,
        _ => BASE_PATH_TO_ASSAULT_RIFLE_SOUNDS@ + "equip.mp3"@,
    }
}

pub fn equip_sound_path(kind: WeaponKind) -> (path: String)
    requires
        kind != WeaponKind::SniperRifle,
    ensures
        path@ == spec_equip_sound_path(kind),
{
    match kind {
        WeaponKind::Glock => String::from_str(BASE_PATH_TO_PISTOL_SOUNDS).concat("equip.ogg"),
        _ => String::from_str(BASE_PATH_TO_ASSAULT_RIFLE_SOUNDS).concat("equip.mp3"),
    }
}

/// The reload sound: the pistol's for the Glock, the rifle's otherwise.
pub open spec fn spec_reload_sound_path(kind: WeaponKind) -> Seq<char> {
    match kind {
        WeaponKind::Glock => BASE_PATH_TO_PISTOL_SOUNDS@ + "reload.ogg"@,
        _ => BASE_PATH_TO_ASSAULT_RIFLE_SOUNDS@ + "reload.mp3"@,
    }
}

pub fn reload_sound_path(kind: WeaponKind) -> (path: String)
    requires
        kind != WeaponKind::SniperRifle,
    ensures
        path@ == spec_reload_sound_path(kind),
{
    match kind {
        WeaponKind::Glock => String::from_str(BASE_PATH_TO_PISTOL_SOUNDS).concat("reload.ogg"),
        _ => String::from_str(BASE_PATH_TO_ASSAULT_RIFLE_SOUNDS).concat("reload.mp3"),
    }
}

/// Only scoping in with the Glock makes a sound.
pub fn aim_sound_path(new_aim: AimType, kind: WeaponKind) -> (path: Option<String>)
    ensures
        path is Some <==> (new_aim == AimType::Scoped && kind == WeaponKind::Glock),
        path matches Some(p) ==> p@ == BASE_PATH_TO_PISTOL_SOUNDS@ + "aim.ogg"@,
{
    if new_aim != AimType::Scoped {
        return None;
    }
    if kind == WeaponKind::Glock {
        Some(String::from_str(BASE_PATH_TO_PISTOL_SOUNDS).concat("aim.ogg"))
    } else {
        None
    }
}

/// The state of a button under the pointer.
#[derive(Clone, Copy, Debug, PartialEq, Eq, Structural)]
pub enum Interaction {
    Pressed,
    Hovered,
    Idle,
}

/// Hovering a button and pressing it each have their sound; a button left alone has none.
pub fn button_sound_path(interaction: Interaction) -> (path: Option<String>)
    ensures
        interaction == Interaction::Idle ==> path is None,
        interaction == Interaction::Hovered ==> (path matches Some(p) && p@ == HOVER_UI_SFX@),
        interaction == Interaction::Pressed ==> (path matches Some(p) && p@ == SELECT_UI_SFX@),
{
    match interaction {
        Interaction::Idle => None,
        Interaction::Hovered => Some(String::from_str(HOVER_UI_SFX)),
        Interaction::Pressed => Some(String::from_str(SELECT_UI_SFX)),
    }
}

/// The sound played on losing the connection.
pub fn error_sound_path() -> (path: String)
    ensures
        path@ == ERROR_UI_SFX@,
{
    String::from_str(ERROR_UI_SFX)
}

/// A number drawn uniformly from `0..n` with the thread-local generator: `rand::rng()`
/// and `rand::Rng::random_range` over `..n`, the draw that
/// `rand::seq::IndexedRandom::choose` makes for a slice of length `n`. Claimed: the
/// number is below `n` (the call panics on an empty range, so `n` must not be 0).
/// Which number comes back is left open.
#[verifier::external_body]
fn random_index_below(n: usize) -> (drawn: usize)
    requires
        n > 0,
    ensures
        drawn < n,
{
    rand::rng().random_range(..n)
}

/// Number of footstep sounds to pick from.
pub const FOOTSTEP_SOUND_COUNT: usize = 4;

pub open spec fn spec_footstep_sound(index: int) -> Seq<char> {
    if index == 0 {
        FOOTSTEP_CONCRETE_1@
    } else if index == 1 {
        FOOTSTEP_CONCRETE_2@
    } else if index == 2 {
        FOOTSTEP_CONCRETE_3@
    } else {
        FOOTSTEP_CONCRETE_4@
    }
}

pub open spec fn is_footstep_sound(path: Seq<char>) -> bool {
    exists|i: int| 0 <= i < FOOTSTEP_SOUND_COUNT && path == #[trigger] spec_footstep_sound(i)
}

/// The footstep sound at position `index` of the concrete footsteps.
pub fn footstep_sound_path(index: usize) -> (path: String)
    requires
        index < FOOTSTEP_SOUND_COUNT,
    ensures
        path@ == spec_footstep_sound(index as int),
{
    if index == 0 {
        String::from_str(FOOTSTEP_CONCRETE_1)
    } else if index == 1 {
        String::from_str(FOOTSTEP_CONCRETE_2)
    } else if index == 2 {
        String::from_str(FOOTSTEP_CONCRETE_3)
    } else {
        String::from_str(FOOTSTEP_CONCRETE_4)
    }
}

/// A footstep sound, picked uniformly at random among the concrete footsteps, when the
/// player moves on the ground (the caller also waits at least 0.3 s between footsteps).
pub fn play_footstep_sound(moving: bool, grounded: bool) -> (path: Option<String>)
    ensures
        path is Some <==> (moving && grounded),
        path matches Some(p) ==> is_footstep_sound(p@),
{
    if !(moving && grounded) {
        return None;
    }
    let drawn = random_index_below(FOOTSTEP_SOUND_COUNT);
    let path = footstep_sound_path(drawn);
    assert(path@ == spec_footstep_sound(drawn as int));
    Some(path)
}

} // verus!
