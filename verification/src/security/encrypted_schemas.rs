//! Offsets of entity fields. Four come from the table of the running game
//! build; the others are not known to the table and are 0, the marker for
//! "not available".
use vstd::prelude::*;

use crate::sdk::SchemaOffsets;
use crate::security::sanitize_sdk_value;

verus! {

/// Offset of an entity's team number.
pub fn m_i_team_num(schema: &SchemaOffsets) -> (r: usize)
    ensures
        r == schema.m_i_team_num,
{
    sanitize_sdk_value(schema.m_i_team_num)
}

/// Offset of an entity's health.
pub fn m_i_health(schema: &SchemaOffsets) -> (r: usize)
    ensures
        r == schema.m_i_health,
{
    sanitize_sdk_value(schema.m_i_health)
}

/// Offset of a pawn's previous origin.
pub fn m_v_old_origin(schema: &SchemaOffsets) -> (r: usize)
    ensures
        r == schema.m_v_old_origin,
{
    sanitize_sdk_value(schema.m_v_old_origin)
}

/// Offset of a controller's pawn handle.
pub fn m_h_player_pawn(schema: &SchemaOffsets) -> (r: usize)
    ensures
        r == schema.m_h_player_pawn,
{
    sanitize_sdk_value(schema.m_h_player_pawn)
}

/// Offset of the clipping weapon: not available (0).
pub fn m_p_clipping_weapon() -> (r: usize)
    ensures
        r == 0,
{
    sanitize_sdk_value(0)
}

/// Offset of the eye angles: not available (0).
pub fn m_ang_eye_angles() -> (r: usize)
    ensures
        r == 0,
{
    sanitize_sdk_value(0)
}

/// Offset of the shots-fired counter: not available (0).
pub fn m_i_shots_fired() -> (r: usize)
    ensures
        r == 0,
{
    sanitize_sdk_value(0)
}

/// Offset of the aim punch angle: not available (0).
pub fn m_aim_punch_angle() -> (r: usize)
    ensures
        r == 0,
{
    sanitize_sdk_value(0)
}

/// Offset of the view offset: not available (0).
pub fn m_vec_view_offset() -> (r: usize)
    ensures
        r == 0,
{
    sanitize_sdk_value(0)
}

} // verus!
