//! The weapon shop of the wave game mode.
use vstd::prelude::*;
use crate::text::{decimal_digits, push_decimal};
use crate::weapons::{GameWeapon, PlayerWeapons, Weapon, WeaponKind, WeaponSlotType, WeaponState, WeaponStats};

verus! {

/// Rounds put in reserve with a bought weapon.
pub const BOUGHT_WEAPON_CARRIED_AMMO: u32 = 360;

/// Why a purchase did not happen.
#[derive(Clone, Copy, Debug, PartialEq, Eq, Structural)]
pub enum BuyError {
    NotEnoughCash,
}

pub open spec fn slot_index_for(slot_type: WeaponSlotType) -> int {
    match slot_type {
        WeaponSlotType::Primary => 0,
        WeaponSlotType::Secondary => 1,
    }
}

/// The weapon a purchase puts into its slot: a full magazine and the standard reserve.
pub open spec fn spec_bought_weapon(item: GameWeapon) -> Weapon {
    Weapon {
        stats: WeaponStats { kind: item.kind, slot_type: item.slot_type, max_loaded_ammo: item.max_loaded_ammo },
        state: WeaponState { loaded_ammo: item.max_loaded_ammo, carried_ammo: BOUGHT_WEAPON_CARRIED_AMMO },
    }
}

/// Slot 0 holds a primary weapon and slot 1 a secondary one.
pub open spec fn slots_typed(player_weapons: &PlayerWeapons) -> bool {
    &&& player_weapons.slot(0).stats.slot_type == WeaponSlotType::Primary
    &&& player_weapons.slot(1).stats.slot_type == WeaponSlotType::Secondary
}

/// A primary item goes to index 0, a secondary item to index 1.
pub proof fn lemma_slot_index_by_type()
    ensures
        slot_index_for(WeaponSlotType::Primary) == 0,
        slot_index_for(WeaponSlotType::Secondary) == 1,
{
}

/// Whether the player can pay for `item`.
pub open spec fn spec_affordable(item: GameWeapon, player_cash: u32) -> bool {
    item.cost <= player_cash
}

/// Buys `item`: refused when it costs more than the player has; otherwise its cost is
/// paid and it replaces the weapon in its slot.
pub fn handle_pressed_buy_item(
    player_cash: &mut u32,
    player_weapons: &mut PlayerWeapons,
    item: &GameWeapon,
) -> (result: Result<(), BuyError>)
    requires
        old(player_weapons).well_formed(),
    ensures
        result is Ok <==> spec_affordable(*item, *old(player_cash)),
        result is Err ==> {
            &&& *final(player_cash) == *old(player_cash)
            &&& final(player_weapons).weapons@ == old(player_weapons).weapons@
        },
        result is Ok ==> {
            let i = slot_index_for(item.slot_type);
            &&& *final(player_cash) == *old(player_cash) - item.cost
            &&& final(player_weapons).slot(i) == spec_bought_weapon(*item)
            &&& final(player_weapons).slot(1 - i) == old(player_weapons).slot(1 - i)
        },
        final(player_weapons).well_formed(),
        // The weapon lands in the slot of its type: primary at index 0, secondary at index 1.
        result is Ok && item.slot_type == WeaponSlotType::Primary ==> {
            &&& final(player_weapons).slot(0).stats.kind == item.kind
            &&& final(player_weapons).slot(0).state == (WeaponState {
                    loaded_ammo: item.max_loaded_ammo,
                    carried_ammo: BOUGHT_WEAPON_CARRIED_AMMO,
                })
            &&& final(player_weapons).slot(1) == old(player_weapons).slot(1)
        },
        result is Ok && item.slot_type == WeaponSlotType::Secondary ==> {
            &&& final(player_weapons).slot(1).stats.kind == item.kind
            &&& final(player_weapons).slot(1).state == (WeaponState {
                    loaded_ammo: item.max_loaded_ammo,
                    carried_ammo: BOUGHT_WEAPON_CARRIED_AMMO,
                })
            &&& final(player_weapons).slot(0) == old(player_weapons).slot(0)
        },
        // Slot 0 keeps holding a primary weapon and slot 1 a secondary one.
        slots_typed(old(player_weapons)) ==> slots_typed(final(player_weapons)),
{
    if item.cost > *player_cash {
        return Err(BuyError::NotEnoughCash);
    }
    *player_cash = *player_cash - item.cost;
    let index: usize = match item.slot_type {
        WeaponSlotType::Primary => 0,
        WeaponSlotType::Secondary => 1,
    };
    let bought = Weapon {
        stats: WeaponStats { kind: item.kind, slot_type: item.slot_type, max_loaded_ammo: item.max_loaded_ammo },
        state: WeaponState { loaded_ammo: item.max_loaded_ammo, carried_ammo: BOUGHT_WEAPON_CARRIED_AMMO },
    };
    player_weapons.weapons.set(index, bought);
    Ok(())
}

/// A shop item can be pressed only when the player can pay for it.
pub fn shop_item_affordable(item: &GameWeapon, player_cash: u32) -> (affordable: bool)
    ensures
        affordable == spec_affordable(*item, player_cash),
{
    !(item.cost > player_cash)
}

pub open spec fn spec_weapon_equipped(player_weapons: &PlayerWeapons, kind: WeaponKind) -> bool {
    exists|i: int| 0 <= i < 2 && #[trigger] player_weapons.slot(i).stats.kind == kind
}

/// Whether one of the player's weapons is of `kind`.
pub fn weapon_equipped(player_weapons: &PlayerWeapons, kind: WeaponKind) -> (equipped: bool)
    requires
        player_weapons.well_formed(),
    ensures
        equipped == spec_weapon_equipped(player_weapons, kind),
{
    let first = player_weapons.weapons[0].stats.kind == kind;
    let second = player_weapons.weapons[1].stats.kind == kind;
    proof {
        if first {
            assert(player_weapons.slot(0).stats.kind == kind);
        }
        if second {
            assert(player_weapons.slot(1).stats.kind == kind);
        }
    }
    first || second
}

/// A bought weapon is equipped afterwards, so the shop marks its item as equipped.
pub proof fn lemma_bought_weapon_is_equipped(player_weapons: &PlayerWeapons, item: GameWeapon)
    requires
        player_weapons.well_formed(),
        player_weapons.slot(slot_index_for(item.slot_type)) == spec_bought_weapon(item),
    ensures
        spec_weapon_equipped(player_weapons, item.kind),
{
    assert(player_weapons.slot(slot_index_for(item.slot_type)).stats.kind == item.kind);
}

/// The label above a shop item's cost.
pub fn shop_item_text(equipped: bool) -> (label: String)
    ensures
        label@ == (if equipped { "Equipped"@ } else { "Cost:"@ }),
{
    if equipped {
        String::from_str("Equipped")
    } else {
        String::from_str("Cost:")
    }
}

pub open spec fn spec_cost_text(cost: u32) -> Seq<char> {
    decimal_digits(cost as nat) + "$"@
}

/// The cost of a shop item as shown: the amount followed by a dollar sign.
pub fn cost_text(cost: u32) -> (text: String)
    ensures
        text@ == spec_cost_text(cost),
{
    let mut text = String::new();
    push_decimal(&mut text, cost as u64);
    text.append("$");
    assert(text@ =~= spec_cost_text(cost));
    text
}

/// Pressing the buy key opens or closes the shop overlay.
pub fn toggle_buy_overlay(buy_overlay_visible: bool, buy_key_just_pressed: bool) -> (visible: bool)
    ensures
        visible == (if buy_key_just_pressed { !buy_overlay_visible } else { buy_overlay_visible }),
{
    if buy_key_just_pressed { !buy_overlay_visible } else { buy_overlay_visible }
}

} // verus!
