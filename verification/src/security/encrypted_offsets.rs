//! Offsets of the global objects inside `client.dll`, read from the table of
//! the running game build.
use vstd::prelude::*;

use crate::sdk::ClientDllOffsets;
use crate::security::sanitize_sdk_value;

verus! {

/// Offset of the local player's pawn pointer.
pub fn dw_local_player_pawn(sdk: &ClientDllOffsets) -> (r: usize)
    ensures
        r == sdk.dw_local_player_pawn,
{
    sanitize_sdk_value(sdk.dw_local_player_pawn)
}

/// Offset of the view-projection matrix.
pub fn dw_view_matrix(sdk: &ClientDllOffsets) -> (r: usize)
    ensures
        r == sdk.dw_view_matrix,
{
    sanitize_sdk_value(sdk.dw_view_matrix)
}

/// Offset of the entity system pointer.
pub fn dw_game_entity_system(sdk: &ClientDllOffsets) -> (r: usize)
    ensures
        r == sdk.dw_game_entity_system,
{
    sanitize_sdk_value(sdk.dw_game_entity_system)
}

/// Offset of the entity list.
pub fn dw_entity_list(sdk: &ClientDllOffsets) -> (r: usize)
    ensures
        r == sdk.dw_entity_list,
{
    sanitize_sdk_value(sdk.dw_entity_list)
}

/// Offset of the planted bomb.
pub fn dw_planted_c4(sdk: &ClientDllOffsets) -> (r: usize)
    ensures
        r == sdk.dw_planted_c4,
{
    sanitize_sdk_value(sdk.dw_planted_c4)
}

/// Offset of the game rules object.
pub fn dw_game_rules(sdk: &ClientDllOffsets) -> (r: usize)
    ensures
        r == sdk.dw_game_rules,
{
    sanitize_sdk_value(sdk.dw_game_rules)
}

/// Offset of the glow manager.
pub fn dw_glow_manager(sdk: &ClientDllOffsets) -> (r: usize)
    ensures
        r == sdk.dw_glow_manager,
{
    sanitize_sdk_value(sdk.dw_glow_manager)
}

/// Offset of the global variables block.
pub fn dw_global_vars(sdk: &ClientDllOffsets) -> (r: usize)
    ensures
        r == sdk.dw_global_vars,
{
    sanitize_sdk_value(sdk.dw_global_vars)
}

/// Offset of the bomb weapon.
pub fn dw_weapon_c4(sdk: &ClientDllOffsets) -> (r: usize)
    ensures
        r == sdk.dw_weapon_c4,
{
    sanitize_sdk_value(sdk.dw_weapon_c4)
}

/// Offset of the local player's controller pointer.
pub fn dw_local_player_controller(sdk: &ClientDllOffsets) -> (r: usize)
    ensures
        r == sdk.dw_local_player_controller,
{
    sanitize_sdk_value(sdk.dw_local_player_controller)
}

} // verus!
