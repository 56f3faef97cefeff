use shooter_client::weapons::{
    get_fire_delay_by_weapon_kind, get_muzzle_flash_position_for_weapon,
    get_path_to_model_for_weapon_kind, get_position_for_weapon, starting_loadout,
    weapon_follow_speed, weapon_target_position, AimType, PositionMm, WeaponKind,
    WeaponSlotType,
};

#[test]
fn model_paths_per_kind() {
    assert_eq!(get_path_to_model_for_weapon_kind(&WeaponKind::Glock), "models/weapons/glock/glock.glb");
    assert_eq!(get_path_to_model_for_weapon_kind(&WeaponKind::AK47), "models/weapons/ak47/ak47.glb");
    assert_eq!(get_path_to_model_for_weapon_kind(&WeaponKind::P90), "models/weapons/p90/p90.glb");
    assert_eq!(
        get_path_to_model_for_weapon_kind(&WeaponKind::SniperRifle),
        "models/weapons/SniperRifle/SniperRifle1_01.glb"
    );
}

#[test]
fn fire_delays_in_millis() {
    assert_eq!(get_fire_delay_by_weapon_kind(&WeaponKind::Glock), 300);
    assert_eq!(get_fire_delay_by_weapon_kind(&WeaponKind::AK47), 115);
    assert_eq!(get_fire_delay_by_weapon_kind(&WeaponKind::P90), 50);
}

#[test]
fn weapon_positions_match_table() {
    assert_eq!(
        get_position_for_weapon(&WeaponKind::Glock, &AimType::Normal),
        PositionMm { x: 250, y: -250, z: -500 }
    );
    assert_eq!(
        get_position_for_weapon(&WeaponKind::AK47, &AimType::Scoped),
        PositionMm { x: 0, y: -219, z: -300 }
    );
    // the P90 cannot be scoped
    assert_eq!(
        get_position_for_weapon(&WeaponKind::P90, &AimType::Scoped),
        get_position_for_weapon(&WeaponKind::P90, &AimType::Normal)
    );
}

#[test]
fn muzzle_flash_positions() {
    assert_eq!(
        get_muzzle_flash_position_for_weapon(&WeaponKind::Glock, &AimType::Scoped),
        PositionMm { x: 500, y: 50, z: 0 }
    );
    assert_eq!(
        get_muzzle_flash_position_for_weapon(&WeaponKind::P90, &AimType::Normal),
        PositionMm { x: 0, y: 50, z: -700 }
    );
}

#[test]
fn reload_lowers_the_weapon() {
    assert_eq!(
        weapon_target_position(&WeaponKind::Glock, &AimType::Normal, true),
        PositionMm { x: 250, y: -500, z: -500 }
    );
    assert_eq!(
        weapon_target_position(&WeaponKind::AK47, &AimType::Normal, true),
        PositionMm { x: 200, y: -550, z: -300 }
    );
    assert_eq!(
        weapon_target_position(&WeaponKind::AK47, &AimType::Scoped, false),
        PositionMm { x: 0, y: -219, z: -300 }
    );
    assert_eq!(weapon_follow_speed(true), 10);
    assert_eq!(weapon_follow_speed(false), 20);
}

#[test]
fn starting_loadout_is_full() {
    let w = starting_loadout();
    assert_eq!(w.weapons[0].stats.kind, WeaponKind::AK47);
    assert_eq!(w.weapons[0].stats.slot_type, WeaponSlotType::Primary);
    assert_eq!(w.weapons[0].state.loaded_ammo, 30);
    assert_eq!(w.weapons[0].state.carried_ammo, 120);
    assert_eq!(w.weapons[1].stats.kind, WeaponKind::Glock);
    assert_eq!(w.weapons[1].stats.max_loaded_ammo, 15);
    assert_eq!(w.weapons[1].state.carried_ammo, 50);
}
