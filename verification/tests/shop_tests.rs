use shooter_client::shop::{
    cost_text, handle_pressed_buy_item, shop_item_affordable, shop_item_text, toggle_buy_overlay,
    weapon_equipped, BuyError,
};
use shooter_client::weapons::{starting_loadout, GameWeapon, WeaponKind, WeaponSlotType};

fn p90() -> GameWeapon {
    GameWeapon { kind: WeaponKind::P90, slot_type: WeaponSlotType::Primary, cost: 1500, max_loaded_ammo: 50 }
}

#[test]
fn buying_pays_and_replaces_slot() {
    let mut cash: u32 = 2000;
    let mut w = starting_loadout();
    assert_eq!(handle_pressed_buy_item(&mut cash, &mut w, &p90()), Ok(()));
    assert_eq!(cash, 500);
    assert_eq!(w.weapons[0].stats.kind, WeaponKind::P90);
    assert_eq!(w.weapons[0].state.loaded_ammo, 50);
    assert_eq!(w.weapons[0].state.carried_ammo, 360);
    assert_eq!(w.weapons[1].stats.kind, WeaponKind::Glock);
    assert!(weapon_equipped(&w, WeaponKind::P90));
    assert!(!weapon_equipped(&w, WeaponKind::AK47));
}

#[test]
fn buying_without_cash_is_refused() {
    let mut cash: u32 = 1499;
    let mut w = starting_loadout();
    assert_eq!(handle_pressed_buy_item(&mut cash, &mut w, &p90()), Err(BuyError::NotEnoughCash));
    assert_eq!(cash, 1499);
    assert_eq!(w.weapons[0].stats.kind, WeaponKind::AK47);
    assert!(!shop_item_affordable(&p90(), 1499));
    assert!(shop_item_affordable(&p90(), 1500));
}

#[test]
fn exact_cash_buys() {
    let mut cash: u32 = 1500;
    let mut w = starting_loadout();
    assert_eq!(handle_pressed_buy_item(&mut cash, &mut w, &p90()), Ok(()));
    assert_eq!(cash, 0);
}

#[test]
fn shop_labels() {
    assert_eq!(shop_item_text(true), "Equipped");
    assert_eq!(shop_item_text(false), "Cost:");
    assert_eq!(cost_text(1500), "1500$");
    assert_eq!(cost_text(0), "0$");
    assert!(toggle_buy_overlay(false, true));
    assert!(!toggle_buy_overlay(true, true));
    assert!(toggle_buy_overlay(true, false));
}
