//! Firing, reloading, switching weapons and aiming.
use vstd::prelude::*;
use crate::weapons::{
    AimType, PlayerWeapons, PositionMm, WeaponSlotType, WeaponState, WeaponStats,
    get_fire_delay_by_weapon_kind, get_position_for_weapon, has_handling_profile,
    spec_fire_delay_millis, spec_weapon_position,
};

verus! {

/// The per-player shooting state.
#[derive(Clone, Copy, Debug, PartialEq, Eq, Structural)]
pub struct PlayerState {
    /// Index into the player's two weapon slots.
    pub active_weapon_slot: usize,
    pub reloading: bool,
    pub shooting: bool,
}

impl PlayerState {
    pub open spec fn well_formed(self) -> bool {
        self.active_weapon_slot < 2
    }
}

/// How a reload is animated: a partial reload keeps a round in the chamber.
#[derive(Clone, Copy, Debug, PartialEq, Eq, Structural)]
pub enum ReloadKind {
    Partial,
    Full,
}

/// The mouse and keyboard input relevant to firing, for one frame.
#[derive(Clone, Copy, Debug, PartialEq, Eq, Structural)]
pub struct ShootInput {
    /// Left mouse button held.
    pub fire_held: bool,
    /// Left mouse button pressed this frame.
    pub fire_just_pressed: bool,
    /// Left mouse button released this frame.
    pub fire_just_released: bool,
    /// The reload key pressed this frame.
    pub reload_just_pressed: bool,
    /// A shot cooldown from an earlier shot is still running.
    pub cooldown_active: bool,
}

/// What the input of one frame leads to.
#[derive(Clone, Copy, Debug, PartialEq, Eq, Structural)]
pub struct ShootOutcome {
    /// `Some(delay)` when a round was fired: a shot cooldown of `delay` milliseconds starts.
    pub fire_cooldown_millis: Option<u32>,
    /// A reload of the active weapon is requested.
    pub reload_requested: bool,
}

/// Secondary weapons are semi-automatic: they fire on a fresh press only.
pub open spec fn shoot_button_pressed(input: ShootInput, slot_type: WeaponSlotType) -> bool {
    if slot_type == WeaponSlotType::Secondary {
        input.fire_just_pressed
    } else {
        input.fire_held
    }
}

/// Whether the frame fires a round.
pub open spec fn spec_fires(input: ShootInput, stats: WeaponStats, state: WeaponState, reloading: bool) -> bool {
    &&& shoot_button_pressed(input, stats.slot_type)
    &&& !input.cooldown_active
    &&& state.loaded_ammo != 0
    &&& !reloading
}

/// Whether a shot attempt was refused; the rest of the frame's input is then ignored.
pub open spec fn spec_shot_refused(input: ShootInput, stats: WeaponStats, state: WeaponState, reloading: bool) -> bool {
    shoot_button_pressed(input, stats.slot_type) && !spec_fires(input, stats, state, reloading)
}

pub open spec fn spec_reload_requested(input: ShootInput, stats: WeaponStats, state: WeaponState, reloading: bool) -> bool {
    &&& !spec_shot_refused(input, stats, state, reloading)
    &&& input.reload_just_pressed
    &&& stats.max_loaded_ammo != state.loaded_ammo
    &&& !reloading
}

pub open spec fn spec_shooting_after(input: ShootInput, slot_type: WeaponSlotType, shooting: bool) -> bool {
    if shoot_button_pressed(input, slot_type) {
        true
    } else if input.fire_just_released {
        false
    } else {
        shooting
    }
}

/// Handles one frame of fire and reload input for the active weapon.
pub fn handle_input(
    player_state: &mut PlayerState,
    player_weapons: &mut PlayerWeapons,
    aim_type: &mut AimType,
    input: ShootInput,
) -> (outcome: ShootOutcome)
    requires
        old(player_state).well_formed(),
        old(player_weapons).well_formed(),
        has_handling_profile(old(player_weapons).slot(old(player_state).active_weapon_slot as int).stats.kind),
    ensures
        ({
            let slot = old(player_state).active_weapon_slot as int;
            let before = old(player_weapons).slot(slot);
            let reloading = old(player_state).reloading;
            let fires = spec_fires(input, before.stats, before.state, reloading);
            let reload = spec_reload_requested(input, before.stats, before.state, reloading);
            &&& outcome.fire_cooldown_millis == (if fires { Some(spec_fire_delay_millis(before.stats.kind)) } else { None::<u32> })
            &&& outcome.reload_requested == reload
            &&& final(player_state).shooting == spec_shooting_after(input, before.stats.slot_type, old(player_state).shooting)
            &&& final(player_state).active_weapon_slot == old(player_state).active_weapon_slot
            &&& final(player_state).reloading == reloading
            &&& final(player_weapons).slot(slot).stats == before.stats
            &&& final(player_weapons).slot(slot).state.carried_ammo == before.state.carried_ammo
            &&& final(player_weapons).slot(slot).state.loaded_ammo
                == (if fires { before.state.loaded_ammo - 1 } else { before.state.loaded_ammo as int })
            &&& final(player_weapons).slot(1 - slot) == old(player_weapons).slot(1 - slot)
            &&& *final(aim_type) == (if reload { AimType::Normal } else { *old(aim_type) })
            &&& final(player_weapons).well_formed()
        }),
        // A fresh press fires a secondary weapon, a held button a primary one, whenever the
        // magazine is not empty and no cooldown or reload runs.
        ({
            let slot = old(player_state).active_weapon_slot as int;
            let before = old(player_weapons).slot(slot);
            ((if before.stats.slot_type == WeaponSlotType::Secondary { input.fire_just_pressed } else { input.fire_held })
                && !input.cooldown_active && before.state.loaded_ammo > 0 && !old(player_state).reloading)
            ==> {
                &&& outcome.fire_cooldown_millis == Some(spec_fire_delay_millis(before.stats.kind))
                &&& final(player_weapons).slot(slot).state.loaded_ammo == before.state.loaded_ammo - 1
                &&& final(player_state).shooting
            }
        }),
        // Without any press nothing is fired and no round is spent.
        (!input.fire_just_pressed && !input.fire_held) ==> {
            &&& outcome.fire_cooldown_millis is None
            &&& final(player_weapons).weapons@ == old(player_weapons).weapons@
        },
{
    let slot = player_state.active_weapon_slot;
    let already_reloading = player_state.reloading;
    let mut current_weapon = player_weapons.weapons[slot];
    let is_secondary = current_weapon.stats.slot_type == WeaponSlotType::Secondary;
    let weapon_is_full = current_weapon.stats.max_loaded_ammo == current_weapon.state.loaded_ammo;

    let shoot_button_pressed = if is_secondary { input.fire_just_pressed } else { input.fire_held };

    if shoot_button_pressed {
        player_state.shooting = true;
    } else if input.fire_just_released {
        player_state.shooting = false;
    }

    let mut fire_cooldown_millis: Option<u32> = None;
    if shoot_button_pressed {
        if input.cooldown_active {
            return ShootOutcome { fire_cooldown_millis: None, reload_requested: false };
        }
        if current_weapon.state.loaded_ammo == 0 {
            return ShootOutcome { fire_cooldown_millis: None, reload_requested: false };
        }
        if player_state.reloading {
            return ShootOutcome { fire_cooldown_millis: None, reload_requested: false };
        }
        current_weapon.state.loaded_ammo = current_weapon.state.loaded_ammo - 1;
        player_weapons.weapons.set(slot, current_weapon);
        fire_cooldown_millis = Some(get_fire_delay_by_weapon_kind(&current_weapon.stats.kind));
    }

    let mut reload_requested = false;
    if input.reload_just_pressed && !weapon_is_full && !already_reloading {
        *aim_type = AimType::Normal;
        reload_requested = true;
    }
    ShootOutcome { fire_cooldown_millis, reload_requested }
}

pub open spec fn spec_reload_kind(loaded_ammo: u32) -> ReloadKind {
    if loaded_ammo == 0 { ReloadKind::Full } else { ReloadKind::Partial }
}

/// What starting a reload sets up.
#[derive(Clone, Copy, Debug, PartialEq, Eq, Structural)]
pub struct ReloadStart {
    pub kind: ReloadKind,
    /// Length of the reload timer that starts, in milliseconds.
    pub duration_millis: u32,
    /// Where the weapon model is put: the active weapon's normal-aim position.
    pub model_position: PositionMm,
}

/// Starts a reload of the active weapon: an empty magazine takes the full reload, the
/// weapon model goes back to its normal-aim position and the player is reloading.
pub fn handle_reload_player_weapon_message(
    player_state: &mut PlayerState,
    player_weapons: &PlayerWeapons,
) -> (start: ReloadStart)
    requires
        old(player_state).well_formed(),
        player_weapons.well_formed(),
        has_handling_profile(player_weapons.slot(old(player_state).active_weapon_slot as int).stats.kind),
    ensures
        ({
            let active = player_weapons.slot(old(player_state).active_weapon_slot as int);
            &&& start.kind == spec_reload_kind(active.state.loaded_ammo)
            &&& start.duration_millis == spec_reload_duration_millis(start.kind)
            &&& start.model_position == spec_weapon_position(active.stats.kind, AimType::Normal)
        }),
        *final(player_state) == (PlayerState { reloading: true, ..*old(player_state) }),
{
    let slot = player_state.active_weapon_slot;
    let weapon = player_weapons.weapons[slot];
    player_state.reloading = true;
    let kind = if weapon.state.loaded_ammo == 0 { ReloadKind::Full } else { ReloadKind::Partial };
    ReloadStart {
        kind,
        duration_millis: reload_duration_millis(kind),
        model_position: get_position_for_weapon(&weapon.stats.kind, &AimType::Normal),
    }
}

pub open spec fn spec_reload_duration_millis(kind: ReloadKind) -> u32 {
    match kind {
        ReloadKind::Full => 3650,
        ReloadKind::Partial => 2810,
    }
}

/// How long a reload takes, in milliseconds.
pub fn reload_duration_millis(kind: ReloadKind) -> (millis: u32)
    ensures
        millis == spec_reload_duration_millis(kind),
{
    match kind {
        ReloadKind::Full => 3650,
        ReloadKind::Partial => 2810,
    }
}

pub open spec fn spec_refill(stats: WeaponStats, state: WeaponState) -> WeaponState {
    let missing = stats.max_loaded_ammo - state.loaded_ammo;
    if state.carried_ammo > missing {
        WeaponState {
            loaded_ammo: (state.loaded_ammo + missing) as u32,
            carried_ammo: (state.carried_ammo - missing) as u32,
        }
    } else {
        WeaponState { loaded_ammo: state.carried_ammo, carried_ammo: 0 }
    }
}

/// The ammunition after a finished reload. When the reserve holds more than the magazine
/// is missing, the magazine is filled from it; otherwise the magazine is set to what the
/// reserve held and the reserve is emptied.
pub fn refill_magazine(stats: WeaponStats, state: WeaponState) -> (after: WeaponState)
    requires
        state.loaded_ammo <= stats.max_loaded_ammo,
    ensures
        after == spec_refill(stats, state),
        after.loaded_ammo <= stats.max_loaded_ammo,
        after.loaded_ammo + after.carried_ammo <= state.loaded_ammo + state.carried_ammo,
        state.carried_ammo > stats.max_loaded_ammo - state.loaded_ammo ==> {
            &&& after.loaded_ammo == stats.max_loaded_ammo
            &&& after.loaded_ammo + after.carried_ammo == state.loaded_ammo + state.carried_ammo
        },
        state.carried_ammo <= stats.max_loaded_ammo - state.loaded_ammo
            ==> after == (WeaponState { loaded_ammo: state.carried_ammo, carried_ammo: 0 }),
        state.carried_ammo > stats.max_loaded_ammo - state.loaded_ammo
            ==> after == (WeaponState {
                loaded_ammo: stats.max_loaded_ammo,
                carried_ammo: (state.carried_ammo - (stats.max_loaded_ammo - state.loaded_ammo)) as u32,
            }),
        state.carried_ammo > 0 && stats.max_loaded_ammo > 0 ==> after.loaded_ammo > 0,
{
    let missing = stats.max_loaded_ammo - state.loaded_ammo;
    if state.carried_ammo > missing {
        WeaponState {
            loaded_ammo: state.loaded_ammo + missing,
            carried_ammo: state.carried_ammo - missing,
        }
    } else {
        WeaponState { loaded_ammo: state.carried_ammo, carried_ammo: 0 }
    }
}

/// Finishes a reload once its timer runs out: reloading stops and the active weapon's
/// magazine is refilled. Nothing changes while no reload is running or the timer runs.
pub fn handle_player_weapon_reload_timer(
    player_state: &mut PlayerState,
    player_weapons: &mut PlayerWeapons,
    timer_just_finished: bool,
)
    requires
        old(player_state).well_formed(),
        old(player_weapons).well_formed(),
    ensures
        ({
            let slot = old(player_state).active_weapon_slot as int;
            let before = old(player_weapons).slot(slot);
            if old(player_state).reloading && timer_just_finished {
                &&& *final(player_state) == (PlayerState { reloading: false, ..*old(player_state) })
                &&& final(player_weapons).slot(slot).stats == before.stats
                &&& final(player_weapons).slot(slot).state == spec_refill(before.stats, before.state)
                &&& final(player_weapons).slot(1 - slot) == old(player_weapons).slot(1 - slot)
            } else {
                &&& *final(player_state) == *old(player_state)
                &&& final(player_weapons).weapons@ == old(player_weapons).weapons@
            }
        }),
        final(player_weapons).well_formed(),
{
    if !player_state.reloading {
        return;
    }
    if timer_just_finished {
        player_state.reloading = false;
        let slot = player_state.active_weapon_slot;
        let mut weapon = player_weapons.weapons[slot];
        weapon.state = refill_magazine(weapon.stats, weapon.state);
        player_weapons.weapons.set(slot, weapon);
    }
}

/// A reload never overfills the magazine and never creates ammunition; it conserves the
/// ammunition exactly when the reserve holds more than the magazine is missing.
pub proof fn lemma_refill_bounds(stats: WeaponStats, state: WeaponState)
    requires
        state.loaded_ammo <= stats.max_loaded_ammo,
    ensures
        ({
            let after = spec_refill(stats, state);
            let missing = stats.max_loaded_ammo - state.loaded_ammo;
            &&& after.loaded_ammo <= stats.max_loaded_ammo
            &&& after.loaded_ammo + after.carried_ammo <= state.loaded_ammo + state.carried_ammo
            &&& (state.carried_ammo > missing <==> after.loaded_ammo + after.carried_ammo == state.loaded_ammo + state.carried_ammo
                    && after.loaded_ammo == stats.max_loaded_ammo && after.carried_ammo > 0)
        }),
{
}

/// A fresh click fires a secondary weapon whatever the held flag says, a real click (pressed
/// and held) fires any weapon, and holding the button fires a primary weapon, when the
/// magazine holds a round and no cooldown or reload runs; a held button alone never fires a
/// secondary weapon.
pub proof fn lemma_fresh_press_fires(input: ShootInput, stats: WeaponStats, state: WeaponState, reloading: bool)
    ensures
        (input.fire_just_pressed && stats.slot_type == WeaponSlotType::Secondary && !input.cooldown_active
            && state.loaded_ammo > 0 && !reloading) ==> spec_fires(input, stats, state, reloading),
        (input.fire_just_pressed && input.fire_held && !input.cooldown_active && state.loaded_ammo > 0 && !reloading)
            ==> spec_fires(input, stats, state, reloading),
        (input.fire_held && stats.slot_type == WeaponSlotType::Primary && !input.cooldown_active
            && state.loaded_ammo > 0 && !reloading) ==> spec_fires(input, stats, state, reloading),
        (stats.slot_type == WeaponSlotType::Secondary && !input.fire_just_pressed)
            ==> !spec_fires(input, stats, state, reloading),
        (!input.fire_just_pressed && !input.fire_held) ==> !spec_fires(input, stats, state, reloading),
{
}

/// A reload whose reserve cannot fill the magazine puts the whole reserve into the
/// magazine and empties the reserve; a reload from a non-empty reserve never leaves an
/// empty magazine; a reserve larger than what is missing fills the magazine.
pub proof fn lemma_refill_takes_reserve(stats: WeaponStats, state: WeaponState)
    requires
        state.loaded_ammo <= stats.max_loaded_ammo,
    ensures
        state.carried_ammo <= stats.max_loaded_ammo - state.loaded_ammo ==> {
            &&& spec_refill(stats, state).loaded_ammo == state.carried_ammo
            &&& spec_refill(stats, state).carried_ammo == 0
        },
        state.carried_ammo > stats.max_loaded_ammo - state.loaded_ammo ==> {
            &&& spec_refill(stats, state).loaded_ammo == stats.max_loaded_ammo
            &&& spec_refill(stats, state).carried_ammo == state.carried_ammo - (stats.max_loaded_ammo - state.loaded_ammo)
        },
        state.carried_ammo > 0 && stats.max_loaded_ammo > 0 ==> spec_refill(stats, state).loaded_ammo > 0,
{
}

/// No round is fired from an empty magazine, during a reload or during a shot cooldown,
/// and no reload is requested for a full magazine or during a reload.
pub proof fn lemma_fire_and_reload_guards(input: ShootInput, stats: WeaponStats, state: WeaponState, reloading: bool)
    ensures
        spec_fires(input, stats, state, reloading) ==> state.loaded_ammo > 0 && !reloading && !input.cooldown_active,
        spec_reload_requested(input, stats, state, reloading) ==> state.loaded_ammo != stats.max_loaded_ammo && !reloading,
{
}

/// The keyboard and mouse-wheel input relevant to switching weapons, for one frame.
#[derive(Clone, Copy, Debug, PartialEq, Eq, Structural)]
pub struct SlotInput {
    /// A weapon switch happened less than the switch cooldown ago.
    pub cooldown_active: bool,
    /// The mouse wheel moved this frame.
    pub scrolled: bool,
    pub digit1_just_pressed: bool,
    pub digit2_just_pressed: bool,
}

/// Milliseconds during which no further weapon switch is accepted.
pub const CHANGE_WEAPON_COOLDOWN_MILLIS: u32 = 50;

pub open spec fn spec_next_slot(current: usize, input: SlotInput) -> usize {
    if input.digit1_just_pressed {
        0
    } else if input.digit2_just_pressed {
        1
    } else if input.scrolled {
        if current == 0 { 1 } else { 0 }
    } else {
        current
    }
}

/// What a weapon switch sets off.
#[derive(Clone, Copy, Debug, PartialEq, Eq, Structural)]
pub struct SlotChange {
    /// The new active slot, announced to the rest of the game.
    pub new_slot: usize,
    /// Length of the switch cooldown that starts, in milliseconds.
    pub cooldown_millis: u32,
    /// A running reload timer is removed.
    pub cancel_reload_timer: bool,
}

/// Switches the active weapon slot. Scrolling toggles between the two slots, the digit keys
/// pick a slot directly (the first digit key wins). A switch starts the switch cooldown and
/// cancels a running reload. Returns the switch when the slot changed.
pub fn handle_weapon_slot_change(player_state: &mut PlayerState, input: SlotInput) -> (changed: Option<SlotChange>)
    requires
        old(player_state).well_formed(),
    ensures
        final(player_state).well_formed(),
        input.cooldown_active ==> changed is None && *final(player_state) == *old(player_state),
        !input.cooldown_active ==> {
            let next = spec_next_slot(old(player_state).active_weapon_slot, input);
            if next != old(player_state).active_weapon_slot {
                &&& changed == Some(SlotChange {
                        new_slot: next,
                        cooldown_millis: CHANGE_WEAPON_COOLDOWN_MILLIS,
                        cancel_reload_timer: true,
                    })
                &&& *final(player_state) == (PlayerState {
                        active_weapon_slot: next,
                        reloading: false,
                        ..*old(player_state)
                    })
            } else {
                &&& changed is None
                &&& *final(player_state) == *old(player_state)
            }
        },
        // Digit key 1 selects the primary slot, digit key 2 (without key 1) the secondary
        // one, whatever the wheel did; without digit keys the wheel flips the slot.
        !input.cooldown_active && input.digit1_just_pressed ==> final(player_state).active_weapon_slot == 0,
        !input.cooldown_active && input.digit2_just_pressed && !input.digit1_just_pressed
            ==> final(player_state).active_weapon_slot == 1,
        !input.cooldown_active && !input.digit1_just_pressed && !input.digit2_just_pressed && input.scrolled
            ==> final(player_state).active_weapon_slot == 1 - old(player_state).active_weapon_slot,
        !input.cooldown_active && !input.digit1_just_pressed && !input.digit2_just_pressed && !input.scrolled
            ==> changed is None && *final(player_state) == *old(player_state),
        changed matches Some(c) ==> c.new_slot == final(player_state).active_weapon_slot
            && c.new_slot != old(player_state).active_weapon_slot,
{
    if input.cooldown_active {
        return None;
    }
    let current_slot = player_state.active_weapon_slot;
    let mut new_slot = current_slot;
    if input.scrolled {
        new_slot = if current_slot == 0 { 1 } else { 0 };
    }
    if input.digit1_just_pressed {
        new_slot = 0;
    } else if input.digit2_just_pressed {
        new_slot = 1;
    }
    if current_slot != new_slot {
        player_state.active_weapon_slot = new_slot;
        player_state.reloading = false;
        Some(SlotChange { new_slot, cooldown_millis: CHANGE_WEAPON_COOLDOWN_MILLIS, cancel_reload_timer: true })
    } else {
        None
    }
}

/// The digit keys pick their slot, digit 1 first, and the wheel alone flips between the
/// two slots.
pub proof fn lemma_next_slot_keys(current: usize, input: SlotInput)
    requires
        current < 2,
    ensures
        input.digit1_just_pressed ==> spec_next_slot(current, input) == 0,
        input.digit2_just_pressed && !input.digit1_just_pressed ==> spec_next_slot(current, input) == 1,
        !input.digit1_just_pressed && !input.digit2_just_pressed && input.scrolled
            ==> spec_next_slot(current, input) == 1 - current,
        !input.digit1_just_pressed && !input.digit2_just_pressed && !input.scrolled
            ==> spec_next_slot(current, input) == current,
        spec_next_slot(current, input) < 2,
{
}

pub open spec fn spec_scope_aim(aim: AimType, reloading: bool, right_just_pressed: bool, right_just_released: bool) -> AimType {
    if reloading {
        aim
    } else if right_just_pressed {
        AimType::Scoped
    } else if right_just_released {
        AimType::Normal
    } else {
        aim
    }
}

/// Scoping with the right mouse button; ignored while reloading.
pub fn handle_player_scope_aim(
    aim_type: AimType,
    reloading: bool,
    right_just_pressed: bool,
    right_just_released: bool,
) -> (next: AimType)
    ensures
        next == spec_scope_aim(aim_type, reloading, right_just_pressed, right_just_released),
{
    if reloading {
        return aim_type;
    }
    if right_just_pressed {
        AimType::Scoped
    } else if right_just_released {
        AimType::Normal
    } else {
        aim_type
    }
}

/// Which impact effect a bullet leaves.
#[derive(Clone, Copy, Debug, PartialEq, Eq, Structural)]
pub enum BulletImpactEffectVariant {
    Enemy,
    World,
}

/// A hit on a player or an enemy shows the enemy impact effect, any other hit the world one.
pub fn bullet_impact_effect_variant(player_or_enemy_hit: bool) -> (v: BulletImpactEffectVariant)
    ensures
        v == (if player_or_enemy_hit { BulletImpactEffectVariant::Enemy } else { BulletImpactEffectVariant::World }),
{
    if player_or_enemy_hit {
        BulletImpactEffectVariant::Enemy
    } else {
        BulletImpactEffectVariant::World
    }
}

} // verus!
