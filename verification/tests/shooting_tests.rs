use shooter_client::shooting::{
    bullet_impact_effect_variant, handle_input, handle_player_scope_aim,
    handle_player_weapon_reload_timer, handle_reload_player_weapon_message,
    handle_weapon_slot_change, refill_magazine, reload_duration_millis,
    BulletImpactEffectVariant, PlayerState, ReloadKind, ShootInput, SlotChange, SlotInput,
};
use shooter_client::timer::OnceTimer;
use shooter_client::weapons::{starting_loadout, PositionMm, AimType, WeaponKind, WeaponSlotType, WeaponState, WeaponStats};

fn idle_input() -> ShootInput {
    ShootInput {
        fire_held: false,
        fire_just_pressed: false,
        fire_just_released: false,
        reload_just_pressed: false,
        cooldown_active: false,
    }
}

fn state(slot: usize) -> PlayerState {
    PlayerState { active_weapon_slot: slot, reloading: false, shooting: false }
}

#[test]
fn holding_fire_shoots_the_rifle() {
    let mut ps = state(0);
    let mut w = starting_loadout();
    let mut aim = AimType::Normal;
    let out = handle_input(&mut ps, &mut w, &mut aim, ShootInput { fire_held: true, ..idle_input() });
    assert_eq!(out.fire_cooldown_millis, Some(115));
    assert!(!out.reload_requested);
    assert_eq!(w.weapons[0].state.loaded_ammo, 29);
    assert!(ps.shooting);
}

#[test]
fn pistol_needs_a_fresh_press() {
    let mut ps = state(1);
    let mut w = starting_loadout();
    let mut aim = AimType::Normal;
    let out = handle_input(&mut ps, &mut w, &mut aim, ShootInput { fire_held: true, ..idle_input() });
    assert_eq!(out.fire_cooldown_millis, None);
    assert_eq!(w.weapons[1].state.loaded_ammo, 15);
    let out = handle_input(&mut ps, &mut w, &mut aim, ShootInput { fire_just_pressed: true, ..idle_input() });
    assert_eq!(out.fire_cooldown_millis, Some(300));
    assert_eq!(w.weapons[1].state.loaded_ammo, 14);
}

#[test]
fn no_shot_during_cooldown_or_reload_or_empty() {
    let mut w = starting_loadout();
    let mut aim = AimType::Normal;
    let mut ps = state(0);
    let out = handle_input(&mut ps, &mut w, &mut aim, ShootInput { fire_held: true, cooldown_active: true, reload_just_pressed: true, ..idle_input() });
    assert_eq!(out.fire_cooldown_millis, None);
    // a refused shot swallows the reload key of the same frame
    assert!(!out.reload_requested);
    let mut reloading = PlayerState { reloading: true, ..state(0) };
    let out = handle_input(&mut reloading, &mut w, &mut aim, ShootInput { fire_held: true, ..idle_input() });
    assert_eq!(out.fire_cooldown_millis, None);
    w.weapons[0].state.loaded_ammo = 0;
    let out = handle_input(&mut ps, &mut w, &mut aim, ShootInput { fire_held: true, ..idle_input() });
    assert_eq!(out.fire_cooldown_millis, None);
    assert_eq!(w.weapons[0].state.loaded_ammo, 0);
}

#[test]
fn reload_key_requests_reload_and_unscopes() {
    let mut w = starting_loadout();
    let mut aim = AimType::Scoped;
    let mut ps = state(0);
    // full magazine: no reload
    let out = handle_input(&mut ps, &mut w, &mut aim, ShootInput { reload_just_pressed: true, ..idle_input() });
    assert!(!out.reload_requested);
    assert_eq!(aim, AimType::Scoped);
    w.weapons[0].state.loaded_ammo = 10;
    let out = handle_input(&mut ps, &mut w, &mut aim, ShootInput { reload_just_pressed: true, ..idle_input() });
    assert!(out.reload_requested);
    assert_eq!(aim, AimType::Normal);
}

#[test]
fn release_stops_shooting() {
    let mut w = starting_loadout();
    let mut aim = AimType::Normal;
    let mut ps = PlayerState { shooting: true, ..state(0) };
    handle_input(&mut ps, &mut w, &mut aim, ShootInput { fire_just_released: true, ..idle_input() });
    assert!(!ps.shooting);
}

#[test]
fn reload_kinds_and_durations() {
    let mut w = starting_loadout();
    let mut ps = state(0);
    w.weapons[0].state.loaded_ammo = 0;
    let start = handle_reload_player_weapon_message(&mut ps, &w);
    assert_eq!(start.kind, ReloadKind::Full);
    assert_eq!(start.duration_millis, 3650);
    assert_eq!(start.model_position, PositionMm { x: 200, y: -250, z: -300 });
    assert!(ps.reloading);
    w.weapons[0].state.loaded_ammo = 3;
    let start = handle_reload_player_weapon_message(&mut ps, &w);
    assert_eq!(start.kind, ReloadKind::Partial);
    assert_eq!(start.duration_millis, 2810);
    let mut pistol = state(1);
    let start = handle_reload_player_weapon_message(&mut pistol, &w);
    assert_eq!(start.model_position, PositionMm { x: 250, y: -250, z: -500 });
    assert_eq!(reload_duration_millis(ReloadKind::Full), 3650);
    assert_eq!(reload_duration_millis(ReloadKind::Partial), 2810);
}

#[test]
fn refill_from_large_reserve_fills_magazine() {
    let stats = WeaponStats { kind: WeaponKind::AK47, slot_type: WeaponSlotType::Primary, max_loaded_ammo: 30 };
    let after = refill_magazine(stats, WeaponState { loaded_ammo: 10, carried_ammo: 120 });
    assert_eq!(after, WeaponState { loaded_ammo: 30, carried_ammo: 100 });
}

#[test]
fn refill_from_small_reserve_takes_the_reserve() {
    let stats = WeaponStats { kind: WeaponKind::AK47, slot_type: WeaponSlotType::Primary, max_loaded_ammo: 30 };
    // reserve not larger than what is missing: the magazine holds what the reserve held
    let after = refill_magazine(stats, WeaponState { loaded_ammo: 10, carried_ammo: 20 });
    assert_eq!(after, WeaponState { loaded_ammo: 20, carried_ammo: 0 });
    let after = refill_magazine(stats, WeaponState { loaded_ammo: 0, carried_ammo: 0 });
    assert_eq!(after, WeaponState { loaded_ammo: 0, carried_ammo: 0 });
}

#[test]
fn reload_timer_finishes_reload() {
    let mut w = starting_loadout();
    w.weapons[1].state.loaded_ammo = 5;
    let mut ps = PlayerState { reloading: true, ..state(1) };
    handle_player_weapon_reload_timer(&mut ps, &mut w, false);
    assert!(ps.reloading);
    assert_eq!(w.weapons[1].state.loaded_ammo, 5);
    handle_player_weapon_reload_timer(&mut ps, &mut w, true);
    assert!(!ps.reloading);
    assert_eq!(w.weapons[1].state, WeaponState { loaded_ammo: 15, carried_ammo: 40 });
    // not reloading: nothing happens
    w.weapons[1].state.loaded_ammo = 1;
    handle_player_weapon_reload_timer(&mut ps, &mut w, true);
    assert_eq!(w.weapons[1].state.loaded_ammo, 1);
}

#[test]
fn slot_switching() {
    let none = SlotInput { cooldown_active: false, scrolled: false, digit1_just_pressed: false, digit2_just_pressed: false };
    let mut ps = PlayerState { reloading: true, ..state(0) };
    let change = |slot: usize| Some(SlotChange { new_slot: slot, cooldown_millis: 50, cancel_reload_timer: true });
    assert_eq!(handle_weapon_slot_change(&mut ps, SlotInput { scrolled: true, ..none }), change(1));
    assert_eq!(ps.active_weapon_slot, 1);
    assert!(!ps.reloading);
    assert_eq!(handle_weapon_slot_change(&mut ps, SlotInput { scrolled: true, ..none }), change(0));
    assert_eq!(handle_weapon_slot_change(&mut ps, SlotInput { digit1_just_pressed: true, ..none }), None);
    assert_eq!(handle_weapon_slot_change(&mut ps, SlotInput { digit2_just_pressed: true, scrolled: true, ..none }), change(1));
    assert_eq!(handle_weapon_slot_change(&mut ps, SlotInput { digit1_just_pressed: true, cooldown_active: true, ..none }), None);
    assert_eq!(ps.active_weapon_slot, 1);
}

#[test]
fn scoping() {
    assert_eq!(handle_player_scope_aim(AimType::Normal, false, true, false), AimType::Scoped);
    assert_eq!(handle_player_scope_aim(AimType::Scoped, false, false, true), AimType::Normal);
    assert_eq!(handle_player_scope_aim(AimType::Normal, true, true, false), AimType::Normal);
    assert_eq!(handle_player_scope_aim(AimType::Scoped, false, false, false), AimType::Scoped);
}

#[test]
fn impact_effects() {
    assert_eq!(bullet_impact_effect_variant(true), BulletImpactEffectVariant::Enemy);
    assert_eq!(bullet_impact_effect_variant(false), BulletImpactEffectVariant::World);
}

#[test]
fn shot_cooldown_timer() {
    let mut t = OnceTimer::new(115);
    assert!(!t.finished());
    assert!(!t.tick(100));
    assert!(!t.finished());
    assert!(t.tick(20));
    assert!(t.finished());
    assert_eq!(t.elapsed_millis, 115);
    assert!(!t.tick(10));
}
