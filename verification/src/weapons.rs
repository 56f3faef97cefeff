//! Weapons, their ammunition and the per-weapon tables: model paths, fire delays and
//! view-model positions.
use vstd::prelude::*;

verus! {

pub const WEAPON_AK_47_MODEL_PATH: &'static str = "models/weapons/ak47/ak47.glb";
pub const WEAPON_GLOCK_MODEL_PATH: &'static str = "models/weapons/glock/glock.glb";
pub const WEAPON_P90_MODEL_PATH: &'static str = "models/weapons/p90/p90.glb";
pub const WEAPON_SNIPER_RIFLE_1_01_PATH: &'static str = "models/weapons/SniperRifle/SniperRifle1_01.glb";

/// The kinds of weapons a player can own.
#[derive(Clone, Copy, Debug, PartialEq, Eq, Structural)]
pub enum WeaponKind {
    Glock,
    AK47,
    P90,
    SniperRifle,
}

/// Whether the player looks over the weapon or through its sights.
#[derive(Clone, Copy, Debug, PartialEq, Eq, Structural)]
pub enum AimType {
    Normal,
    Scoped,
}

/// The slot a weapon occupies: slot 0 holds the primary weapon, slot 1 the secondary.
#[derive(Clone, Copy, Debug, PartialEq, Eq, Structural)]
pub enum WeaponSlotType {
    Primary,
    Secondary,
}

/// What does not change about a weapon while it is used.
#[derive(Clone, Copy, Debug, PartialEq, Eq, Structural)]
pub struct WeaponStats {
    pub kind: WeaponKind,
    pub slot_type: WeaponSlotType,
    pub max_loaded_ammo: u32,
}

/// The ammunition of a weapon: in the magazine, and carried in reserve.
#[derive(Clone, Copy, Debug, PartialEq, Eq, Structural)]
pub struct WeaponState {
    pub loaded_ammo: u32,
    pub carried_ammo: u32,
}

#[derive(Clone, Copy, Debug, PartialEq, Eq, Structural)]
pub struct Weapon {
    pub stats: WeaponStats,
    pub state: WeaponState,
}

/// A weapon as the shop sells it.
#[derive(Clone, Copy, Debug, PartialEq, Eq, Structural)]
pub struct GameWeapon {
    pub kind: WeaponKind,
    pub slot_type: WeaponSlotType,
    pub cost: u32,
    pub max_loaded_ammo: u32,
}

/// The two weapons of a player; index 0 is the primary slot, index 1 the secondary.
pub struct PlayerWeapons {
    pub weapons: [Weapon; 2],
}

impl Weapon {
    /// A magazine never holds more than it was made for.
    pub open spec fn well_formed(self) -> bool {
        self.state.loaded_ammo <= self.stats.max_loaded_ammo
    }
}

impl PlayerWeapons {
    pub open spec fn well_formed(&self) -> bool {
        &&& self.weapons@.len() == 2
        &&& self.weapons@[0].well_formed()
        &&& self.weapons@[1].well_formed()
    }

    pub open spec fn slot(&self, i: int) -> Weapon {
        self.weapons@[i]
    }
}

/// The kinds that have a fire delay and view-model positions.
pub open spec fn has_handling_profile(kind: WeaponKind) -> bool {
    kind != WeaponKind::SniperRifle
}

pub open spec fn spec_model_path(kind: WeaponKind) -> Seq<char> {
    match kind {
        WeaponKind::Glock => WEAPON_GLOCK_MODEL_PATH@,
        WeaponKind::AK47 => WEAPON_AK_47_MODEL_PATH@,
        WeaponKind::P90 => WEAPON_P90_MODEL_PATH@,
        WeaponKind::SniperRifle => WEAPON_SNIPER_RIFLE_1_01_PATH@,
    }
}

/// The asset path of the 3D model of a weapon kind.
pub fn get_path_to_model_for_weapon_kind(weapon_type: &WeaponKind) -> (path: String)
    ensures
        path@ == spec_model_path(*weapon_type),
{
    match weapon_type {
        WeaponKind::Glock => String::from_str(WEAPON_GLOCK_MODEL_PATH),
        WeaponKind::AK47 => String::from_str(WEAPON_AK_47_MODEL_PATH),
        WeaponKind::P90 => String::from_str(WEAPON_P90_MODEL_PATH),
        WeaponKind::SniperRifle => String::from_str(WEAPON_SNIPER_RIFLE_1_01_PATH),
    }
}

pub open spec fn spec_fire_delay_millis(kind: WeaponKind) -> u32 {
    match kind {
        WeaponKind::Glock => 300,
        WeaponKind::AK47 => 115,
        WeaponKind::P90 => 50,
        WeaponKind::SniperRifle => 0,
    }
}

/// The time between two shots of a weapon, in milliseconds.
pub fn get_fire_delay_by_weapon_kind(weapon_type: &WeaponKind) -> (millis: u32)
    requires
        has_handling_profile(*weapon_type),
    ensures
        millis == spec_fire_delay_millis(*weapon_type),
{
    match weapon_type {
        WeaponKind::Glock => 300,
        WeaponKind::AK47 => 115,
        WeaponKind::P90 => 50,
        WeaponKind::SniperRifle => 0,
    }
}

/// A point in the view-model camera's space, in millimetres (thousandths of a world unit).
#[derive(Clone, Copy, Debug, PartialEq, Eq, Structural)]
pub struct PositionMm {
    pub x: i32,
    pub y: i32,
    pub z: i32,
}

pub open spec fn pos(x: int, y: int, z: int) -> PositionMm {
    PositionMm { x: x as i32, y: y as i32, z: z as i32 }
}

pub open spec fn spec_weapon_position(kind: WeaponKind, aim: AimType) -> PositionMm {
    match kind {
        WeaponKind::Glock => match aim {
            AimType::Normal => pos(250, -250, -500),
            AimType::Scoped => pos(0, -200, -300),
        },
        WeaponKind::AK47 => match aim {
            AimType::Normal => pos(200, -250, -300),
            AimType::Scoped => pos(0, -219, -300),
        },
        // no scoping with the P90
        _ => pos(200, -280, -700),
    }
}

/// Where the held weapon model sits for a weapon kind and aim.
pub fn get_position_for_weapon(weapon_type: &WeaponKind, aim_type: &AimType) -> (p: PositionMm)
    requires
        has_handling_profile(*weapon_type),
    ensures
        p == spec_weapon_position(*weapon_type, *aim_type),
{
    match weapon_type {
        WeaponKind::Glock => match aim_type {
            AimType::Normal => PositionMm { x: 250, y: -250, z: -500 },
            AimType::Scoped => PositionMm { x: 0, y: -200, z: -300 },
        },
        WeaponKind::AK47 => match aim_type {
            AimType::Normal => PositionMm { x: 200, y: -250, z: -300 },
            AimType::Scoped => PositionMm { x: 0, y: -219, z: -300 },
        },
        _ => PositionMm { x: 200, y: -280, z: -700 },
    }
}

pub open spec fn spec_muzzle_flash_position(kind: WeaponKind, aim: AimType) -> PositionMm {
    match kind {
        WeaponKind::Glock => match aim {
            AimType::Normal => pos(400, 50, 30),
            AimType::Scoped => pos(500, 50, 0),
        },
        _ => match aim {
            AimType::Normal => pos(0, 50, -700),
            AimType::Scoped => pos(0, 100, -700),
        },
    }
}

/// Where the muzzle flash appears, relative to the weapon model.
pub fn get_muzzle_flash_position_for_weapon(weapon_type: &WeaponKind, aim_type: &AimType) -> (p: PositionMm)
    requires
        has_handling_profile(*weapon_type),
    ensures
        p == spec_muzzle_flash_position(*weapon_type, *aim_type),
{
    match weapon_type {
        WeaponKind::Glock => match aim_type {
            AimType::Normal => PositionMm { x: 400, y: 50, z: 30 },
            AimType::Scoped => PositionMm { x: 500, y: 50, z: 0 },
        },
        _ => match aim_type {
            AimType::Normal => PositionMm { x: 0, y: 50, z: -700 },
            AimType::Scoped => PositionMm { x: 0, y: 100, z: -700 },
        },
    }
}

/// The kinds that have a lowered pose for the weapon model during a reload.
pub open spec fn has_reload_pose(kind: WeaponKind) -> bool {
    kind == WeaponKind::Glock || kind == WeaponKind::AK47
}

pub open spec fn spec_weapon_target_position(kind: WeaponKind, aim: AimType, reloading: bool) -> PositionMm {
    let p = spec_weapon_position(kind, aim);
    if reloading {
        if kind == WeaponKind::Glock {
            pos(p.x as int, p.y - 250, p.z as int)
        } else {
            pos(p.x as int, p.y - 300, p.z as int)
        }
    } else {
        p
    }
}

/// The position the weapon model moves toward: its aim position, lowered while reloading.
pub fn weapon_target_position(weapon_type: &WeaponKind, aim_type: &AimType, reloading: bool) -> (p: PositionMm)
    requires
        has_handling_profile(*weapon_type),
        reloading ==> has_reload_pose(*weapon_type),
    ensures
        p == spec_weapon_target_position(*weapon_type, *aim_type, reloading),
{
    let target = get_position_for_weapon(weapon_type, aim_type);
    if reloading {
        match weapon_type {
            WeaponKind::Glock => PositionMm { x: target.x, y: target.y - 250, z: target.z },
            _ => PositionMm { x: target.x, y: target.y - 300, z: target.z },
        }
    } else {
        target
    }
}

/// How fast (per second) the weapon model closes in on its target position.
pub fn weapon_follow_speed(reloading: bool) -> (speed: u32)
    ensures
        speed == (if reloading { 10u32 } else { 20u32 }),
{
    if reloading { 10 } else { 20 }
}

/// The weapons a player is given when joining: an AK-47 with 30 + 120 rounds and a
/// Glock with 15 + 50 rounds.
pub fn starting_loadout() -> (w: PlayerWeapons)
    ensures
        w.well_formed(),
        w.slot(0) == (Weapon {
            stats: WeaponStats { kind: WeaponKind::AK47, slot_type: WeaponSlotType::Primary, max_loaded_ammo: 30 },
            state: WeaponState { loaded_ammo: 30, carried_ammo: 120 },
        }),
        w.slot(1) == (Weapon {
            stats: WeaponStats { kind: WeaponKind::Glock, slot_type: WeaponSlotType::Secondary, max_loaded_ammo: 15 },
            state: WeaponState { loaded_ammo: 15, carried_ammo: 50 },
        }),
{
    PlayerWeapons {
        weapons: [
            Weapon {
                stats: WeaponStats { kind: WeaponKind::AK47, slot_type: WeaponSlotType::Primary, max_loaded_ammo: 30 },
                state: WeaponState { loaded_ammo: 30, carried_ammo: 120 },
            },
            Weapon {
                stats: WeaponStats { kind: WeaponKind::Glock, slot_type: WeaponSlotType::Secondary, max_loaded_ammo: 15 },
                state: WeaponState { loaded_ammo: 15, carried_ammo: 50 },
            },
        ],
    }
}

} // verus!
