//! The offset tables that a dumper generates for the running game build.
//! Their values change with every build, so they are data handed in by the
//! caller rather than constants of the library.
use vstd::prelude::*;

verus! {

/// Offsets of the global objects inside `client.dll`, relative to its base.
pub struct ClientDllOffsets {
    pub dw_local_player_pawn: usize,
    pub dw_view_matrix: usize,
    pub dw_game_entity_system: usize,
    pub dw_entity_list: usize,
    pub dw_planted_c4: usize,
    pub dw_game_rules: usize,
    pub dw_glow_manager: usize,
    pub dw_global_vars: usize,
    pub dw_weapon_c4: usize,
    pub dw_local_player_controller: usize,
}

/// Offsets of entity fields, relative to the start of the entity.
pub struct SchemaOffsets {
    /// `C_BaseEntity::m_iTeamNum`
    pub m_i_team_num: usize,
    /// `C_BaseEntity::m_iHealth`
    pub m_i_health: usize,
    /// `C_BasePlayerPawn::m_vOldOrigin`
    pub m_v_old_origin: usize,
    /// `CCSPlayerController::m_hPlayerPawn`
    pub m_h_player_pawn: usize,
}

} // verus!
