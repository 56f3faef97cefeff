use shooter_client::hud::{
    ammo_texts, cursor_options_for, enemies_killed_text, free_mouse, grab_mouse,
    manual_mouse_grab_toggle, on_ui_state_change, survived_until_wave_text,
    update_player_crosshair_visibility, weapon_slot_text, weapon_text_selected, CursorGrabMode,
    CursorOptions, UiState, Visibility,
};
use shooter_client::weapons::{starting_loadout, AimType, WeaponKind};

#[test]
fn cursor_follows_ui_state() {
    let mut ui = UiState::new();
    free_mouse(&mut ui);
    assert!(ui.cursor_visible);
    assert_eq!(cursor_options_for(ui.cursor_visible), CursorOptions { visible: true, grab_mode: CursorGrabMode::Free });
    grab_mouse(&mut ui);
    assert_eq!(cursor_options_for(ui.cursor_visible), CursorOptions { visible: false, grab_mode: CursorGrabMode::Locked });
}

#[test]
fn manual_grab_toggle_twice() {
    let c = cursor_options_for(true);
    let once = manual_mouse_grab_toggle(c, true);
    assert_eq!(once, CursorOptions { visible: false, grab_mode: CursorGrabMode::Locked });
    assert_eq!(manual_mouse_grab_toggle(once, true), c);
    assert_eq!(manual_mouse_grab_toggle(c, false), c);
    let confined = CursorOptions { visible: false, grab_mode: CursorGrabMode::Confined };
    assert_eq!(manual_mouse_grab_toggle(confined, true), CursorOptions { visible: true, grab_mode: CursorGrabMode::Free });
}

#[test]
fn crosshair_rules() {
    assert_eq!(update_player_crosshair_visibility(AimType::Scoped, false), Some(Visibility::Hidden));
    assert_eq!(update_player_crosshair_visibility(AimType::Normal, false), Some(Visibility::Visible));
    assert_eq!(update_player_crosshair_visibility(AimType::Normal, true), None);
    assert_eq!(on_ui_state_change(true, AimType::Normal), Some(Visibility::Hidden));
    assert_eq!(on_ui_state_change(false, AimType::Normal), Some(Visibility::Visible));
    assert_eq!(on_ui_state_change(false, AimType::Scoped), None);
}

#[test]
fn hud_texts() {
    assert_eq!(weapon_slot_text(0, WeaponKind::AK47), "1: AK47");
    assert_eq!(weapon_slot_text(1, WeaponKind::Glock), "2: Glock");
    assert!(weapon_text_selected(1, 1));
    assert!(!weapon_text_selected(0, 1));
    let w = starting_loadout();
    let (loaded, carried) = ammo_texts(&w, 0);
    assert_eq!(loaded, "30");
    assert_eq!(carried, "120");
    assert_eq!(survived_until_wave_text(7), "You survived until wave 7");
    assert_eq!(enemies_killed_text(42), "Enemies killed: 42");
}
