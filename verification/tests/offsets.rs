use lib::sdk::{ClientDllOffsets, SchemaOffsets};
use lib::security::encrypted_offsets::{
    dw_entity_list, dw_game_entity_system, dw_game_rules, dw_global_vars, dw_glow_manager,
    dw_local_player_controller, dw_local_player_pawn, dw_planted_c4, dw_view_matrix, dw_weapon_c4,
};
use lib::security::encrypted_schemas::{
    m_aim_punch_angle, m_ang_eye_angles, m_h_player_pawn, m_i_health, m_i_shots_fired,
    m_i_team_num, m_p_clipping_weapon, m_v_old_origin, m_vec_view_offset,
};

fn client_table() -> ClientDllOffsets {
    ClientDllOffsets {
        dw_local_player_pawn: 0x11,
        dw_view_matrix: 0x22,
        dw_game_entity_system: 0x33,
        dw_entity_list: 0x44,
        dw_planted_c4: 0x55,
        dw_game_rules: 0x66,
        dw_glow_manager: 0x77,
        dw_global_vars: 0x88,
        dw_weapon_c4: 0x99,
        dw_local_player_controller: 0xAA,
    }
}

#[test]
fn client_offsets_come_from_the_table() {
    let t = client_table();
    assert_eq!(dw_local_player_pawn(&t), 0x11);
    assert_eq!(dw_view_matrix(&t), 0x22);
    assert_eq!(dw_game_entity_system(&t), 0x33);
    assert_eq!(dw_entity_list(&t), 0x44);
    assert_eq!(dw_planted_c4(&t), 0x55);
    assert_eq!(dw_game_rules(&t), 0x66);
    assert_eq!(dw_glow_manager(&t), 0x77);
    assert_eq!(dw_global_vars(&t), 0x88);
    assert_eq!(dw_weapon_c4(&t), 0x99);
    assert_eq!(dw_local_player_controller(&t), 0xAA);
}

#[test]
fn missing_offset_stays_zero() {
    let mut t = client_table();
    t.dw_view_matrix = 0;
    assert_eq!(dw_view_matrix(&t), 0);
}

#[test]
fn schema_offsets_come_from_the_table() {
    let s = SchemaOffsets { m_i_team_num: 0x101, m_i_health: 0x202, m_v_old_origin: 0x303, m_h_player_pawn: 0x404 };
    assert_eq!(m_i_team_num(&s), 0x101);
    assert_eq!(m_i_health(&s), 0x202);
    assert_eq!(m_v_old_origin(&s), 0x303);
    assert_eq!(m_h_player_pawn(&s), 0x404);
}

#[test]
fn unavailable_schema_offsets_are_zero() {
    assert_eq!(m_p_clipping_weapon(), 0);
    assert_eq!(m_ang_eye_angles(), 0);
    assert_eq!(m_i_shots_fired(), 0);
    assert_eq!(m_aim_punch_angle(), 0);
    assert_eq!(m_vec_view_offset(), 0);
}
