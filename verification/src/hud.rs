//! The interface state, the mouse cursor, the crosshair and the HUD texts.
use vstd::prelude::*;
use crate::text::{decimal_digits, push_decimal};
use crate::weapons::{AimType, PlayerWeapons, WeaponKind};

verus! {

/// Which overlays are shown and whether the cursor is free.
#[derive(Clone, Copy, Debug, PartialEq, Eq, Structural)]
pub struct UiState {
    pub score_board_overlay_visible: bool,
    pub buy_overlay_visible: bool,
    pub crosshair_visible: bool,
    pub cursor_visible: bool,
}

impl UiState {
    /// Nothing shown, cursor captured.
    pub fn new() -> (s: UiState)
        ensures
            s == (UiState {
                score_board_overlay_visible: false,
                buy_overlay_visible: false,
                crosshair_visible: false,
                cursor_visible: false,
            }),
    {
        UiState {
            score_board_overlay_visible: false,
            buy_overlay_visible: false,
            crosshair_visible: false,
            cursor_visible: false,
        }
    }
}

/// How the window holds the mouse cursor.
#[derive(Clone, Copy, Debug, PartialEq, Eq, Structural)]
pub enum CursorGrabMode {
    Free,
    Confined,
    Locked,
}

#[derive(Clone, Copy, Debug, PartialEq, Eq, Structural)]
pub struct CursorOptions {
    pub visible: bool,
    pub grab_mode: CursorGrabMode,
}

pub open spec fn spec_cursor_options_for(cursor_visible: bool) -> CursorOptions {
    CursorOptions {
        visible: cursor_visible,
        grab_mode: if cursor_visible { CursorGrabMode::Free } else { CursorGrabMode::Locked },
    }
}

/// A visible cursor is free; a hidden cursor is locked to the window.
pub fn cursor_options_for(cursor_visible: bool) -> (c: CursorOptions)
    ensures
        c == spec_cursor_options_for(cursor_visible),
        c.visible <==> c.grab_mode == CursorGrabMode::Free,
{
    CursorOptions {
        visible: cursor_visible,
        grab_mode: if cursor_visible { CursorGrabMode::Free } else { CursorGrabMode::Locked },
    }
}

/// Entering play captures the cursor.
pub fn grab_mouse(ui_state: &mut UiState)
    ensures
        *final(ui_state) == (UiState { cursor_visible: false, ..*old(ui_state) }),
{
    ui_state.cursor_visible = false;
}

/// Pausing, dying or entering the main menu frees the cursor.
pub fn free_mouse(ui_state: &mut UiState)
    ensures
        *final(ui_state) == (UiState { cursor_visible: true, ..*old(ui_state) }),
{
    ui_state.cursor_visible = true;
}

pub open spec fn spec_manual_grab_toggle(c: CursorOptions) -> CursorOptions {
    if c.grab_mode == CursorGrabMode::Free {
        CursorOptions { visible: false, grab_mode: CursorGrabMode::Locked }
    } else {
        CursorOptions { visible: true, grab_mode: CursorGrabMode::Free }
    }
}

/// The manual grab key: a free cursor is captured, any captured one is freed.
pub fn manual_mouse_grab_toggle(cursor: CursorOptions, key_just_pressed: bool) -> (next: CursorOptions)
    ensures
        next == (if key_just_pressed { spec_manual_grab_toggle(cursor) } else { cursor }),
{
    if !key_just_pressed {
        return cursor;
    }
    if cursor.grab_mode == CursorGrabMode::Free {
        CursorOptions { visible: false, grab_mode: CursorGrabMode::Locked }
    } else {
        CursorOptions { visible: true, grab_mode: CursorGrabMode::Free }
    }
}

/// On a cursor set from the interface state, the manual toggle flips visibility and
/// toggling twice restores the cursor.
pub proof fn lemma_manual_grab_toggle_involutive(cursor_visible: bool)
    ensures
        spec_manual_grab_toggle(spec_cursor_options_for(cursor_visible)) == spec_cursor_options_for(!cursor_visible),
        spec_manual_grab_toggle(spec_manual_grab_toggle(spec_cursor_options_for(cursor_visible)))
            == spec_cursor_options_for(cursor_visible),
{
}

/// Whether the crosshair is drawn.
#[derive(Clone, Copy, Debug, PartialEq, Eq, Structural)]
pub enum Visibility {
    Visible,
    Hidden,
}

pub open spec fn spec_crosshair_on_aim_change(aim: AimType, score_board_visible: bool) -> Option<Visibility> {
    if score_board_visible {
        None
    } else {
        match aim {
            AimType::Normal => Some(Visibility::Visible),
            AimType::Scoped => Some(Visibility::Hidden),
        }
    }
}

/// When the aim changes: scoping hides the crosshair, unscoping shows it; the crosshair
/// is left alone while the score board is shown. Returns the visibility to set, if any.
pub fn update_player_crosshair_visibility(aim: AimType, score_board_visible: bool) -> (v: Option<Visibility>)
    ensures
        v == spec_crosshair_on_aim_change(aim, score_board_visible),
{
    if score_board_visible {
        return None;
    }
    match aim {
        AimType::Normal => Some(Visibility::Visible),
        AimType::Scoped => Some(Visibility::Hidden),
    }
}

pub open spec fn spec_crosshair_on_ui_change(score_board_visible: bool, aim: AimType) -> Option<Visibility> {
    if score_board_visible {
        Some(Visibility::Hidden)
    } else if aim != AimType::Scoped {
        Some(Visibility::Visible)
    } else {
        None
    }
}

/// When the interface state changes: the score board hides the crosshair; otherwise it is
/// shown again unless the player is scoping.
pub fn on_ui_state_change(score_board_visible: bool, aim: AimType) -> (v: Option<Visibility>)
    ensures
        v == spec_crosshair_on_ui_change(score_board_visible, aim),
{
    if score_board_visible {
        Some(Visibility::Hidden)
    } else if aim != AimType::Scoped {
        Some(Visibility::Visible)
    } else {
        None
    }
}

/// Neither crosshair rule ever shows the crosshair while scoping or while the score board
/// is up.
pub proof fn lemma_crosshair_hidden_when_scoped_or_scoreboard(aim: AimType, score_board_visible: bool)
    ensures
        (aim == AimType::Scoped || score_board_visible)
            ==> spec_crosshair_on_aim_change(aim, score_board_visible) != Some(Visibility::Visible),
        (aim == AimType::Scoped || score_board_visible)
            ==> spec_crosshair_on_ui_change(score_board_visible, aim) != Some(Visibility::Visible),
{
}

/// The HUD name of a weapon kind.
pub open spec fn spec_weapon_kind_name(kind: WeaponKind) -> Seq<char> {
    match kind {
        WeaponKind::Glock => "Glock"@,
        WeaponKind::AK47 => "AK47"@,
        WeaponKind::P90 => "P90"@,
        WeaponKind::SniperRifle => "SniperRifle"@,
    }
}

pub fn weapon_kind_name(kind: WeaponKind) -> (name: String)
    ensures
        name@ == spec_weapon_kind_name(kind),
{
    match kind {
        WeaponKind::Glock => String::from_str("Glock"),
        WeaponKind::AK47 => String::from_str("AK47"),
        WeaponKind::P90 => String::from_str("P90"),
        WeaponKind::SniperRifle => String::from_str("SniperRifle"),
    }
}

pub open spec fn spec_weapon_slot_text(index: usize, kind: WeaponKind) -> Seq<char> {
    decimal_digits((index + 1) as nat) + ": "@ + spec_weapon_kind_name(kind)
}

/// The HUD line of a weapon slot: its 1-based number and the weapon's name.
pub fn weapon_slot_text(index: usize, kind: WeaponKind) -> (text: String)
    requires
        index < 2,
    ensures
        text@ == spec_weapon_slot_text(index, kind),
{
    let mut text = String::new();
    push_decimal(&mut text, (index + 1) as u64);
    text.append(": ");
    let name = weapon_kind_name(kind);
    text.append(name.as_str());
    assert(text@ =~= spec_weapon_slot_text(index, kind));
    text
}

/// The HUD highlights the line of the active weapon slot.
pub fn weapon_text_selected(index: usize, active_weapon_slot: usize) -> (selected: bool)
    ensures
        selected == (index == active_weapon_slot),
{
    index == active_weapon_slot
}

/// The two ammunition counters of the HUD: loaded and carried rounds of the active weapon.
pub fn ammo_texts(player_weapons: &PlayerWeapons, active_weapon_slot: usize) -> (texts: (String, String))
    requires
        player_weapons.well_formed(),
        active_weapon_slot < 2,
    ensures
        texts.0@ == decimal_digits(player_weapons.slot(active_weapon_slot as int).state.loaded_ammo as nat),
        texts.1@ == decimal_digits(player_weapons.slot(active_weapon_slot as int).state.carried_ammo as nat),
{
    let weapon = player_weapons.weapons[active_weapon_slot];
    let mut loaded = String::new();
    push_decimal(&mut loaded, weapon.state.loaded_ammo as u64);
    let mut carried = String::new();
    push_decimal(&mut carried, weapon.state.carried_ammo as u64);
    assert(loaded@ =~= decimal_digits(weapon.state.loaded_ammo as nat));
    assert(carried@ =~= decimal_digits(weapon.state.carried_ammo as nat));
    (loaded, carried)
}

pub open spec fn spec_survived_until_text(wave: u32) -> Seq<char> {
    "You survived until wave "@ + decimal_digits(wave as nat)
}

/// The death screen line on the reached wave.
pub fn survived_until_wave_text(current_wave: u32) -> (text: String)
    ensures
        text@ == spec_survived_until_text(current_wave),
{
    let mut text = String::from_str("You survived until wave ");
    push_decimal(&mut text, current_wave as u64);
    text
}

pub open spec fn spec_enemies_killed_text(killed: u32) -> Seq<char> {
    "Enemies killed: "@ + decimal_digits(killed as nat)
}

/// The death screen line on the enemies killed.
pub fn enemies_killed_text(enemies_killed: u32) -> (text: String)
    ensures
        text@ == spec_enemies_killed_text(enemies_killed),
{
    let mut text = String::from_str("Enemies killed: ");
    push_decimal(&mut text, enemies_killed as u64);
    text
}

} // verus!
