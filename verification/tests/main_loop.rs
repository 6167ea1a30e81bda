use lib::overlay::{
    client_module_poll, overlay_step, ModulePoll, OverlayAction, OverlayEvent, OverlayState,
};
use lib::sdk::{ClientDllOffsets, SchemaOffsets};

const BASE: usize = 0x1_0000_0000;
const LOCAL: usize = 0x7_0000_0000;

fn client() -> ClientDllOffsets {
    ClientDllOffsets {
        dw_local_player_pawn: 0x200,
        dw_view_matrix: 0x300,
        dw_game_entity_system: 0x100,
        dw_entity_list: 0,
        dw_planted_c4: 0,
        dw_game_rules: 0,
        dw_glow_manager: 0,
        dw_global_vars: 0,
        dw_weapon_c4: 0,
        dw_local_player_controller: 0,
    }
}

fn schema() -> SchemaOffsets {
    SchemaOffsets { m_i_team_num: 0x10, m_i_health: 0x20, m_v_old_origin: 0x30, m_h_player_pawn: 0x40 }
}

#[test]
fn module_poll_waits_for_nonzero_handle() {
    assert_eq!(client_module_poll(0), ModulePoll::Sleep { ms: 200 });
    assert_eq!(client_module_poll(BASE), ModulePoll::Found { base: BASE });
}

#[test]
fn frame_runs_through_to_the_scan() {
    let (s, a) = overlay_step(BASE, &client(), &schema(), OverlayState::Idle, OverlayEvent::KeyState(0));
    assert_eq!(a, OverlayAction::ReadLocalPawn { addr: BASE + 0x200 });
    let (s, a) = overlay_step(BASE, &client(), &schema(), s, OverlayEvent::LocalPawn(LOCAL));
    assert_eq!(a, OverlayAction::ReadTeam { addr: LOCAL + 0x10 });
    let (s, a) = overlay_step(BASE, &client(), &schema(), s, OverlayEvent::Team(2));
    assert_eq!(a, OverlayAction::ReadViewMatrix { addr: BASE + 0x300 });
    let (s, a) = overlay_step(BASE, &client(), &schema(), s, OverlayEvent::ViewMatrixRead);
    assert_eq!(s, OverlayState::Scanning { local_pawn: LOCAL, my_team: 2 });
    assert_eq!(a, OverlayAction::ScanEntities { local_pawn: LOCAL, my_team: 2 });
    let (s, a) = overlay_step(BASE, &client(), &schema(), s, OverlayEvent::ScanDone);
    assert_eq!(s, OverlayState::Idle);
    assert_eq!(a, OverlayAction::Sleep { ms: 1 });
}

#[test]
fn exit_key_bit_zero_ends_the_loop() {
    for k in [1i16, 3, -32767] {
        assert_eq!(
            overlay_step(BASE, &client(), &schema(), OverlayState::Idle, OverlayEvent::KeyState(k)),
            (OverlayState::Finished, OverlayAction::Exit)
        );
    }
    let (_, a) = overlay_step(BASE, &client(), &schema(), OverlayState::Idle, OverlayEvent::KeyState(-32768));
    assert_eq!(a, OverlayAction::ReadLocalPawn { addr: BASE + 0x200 });
    assert_eq!(
        overlay_step(BASE, &client(), &schema(), OverlayState::Finished, OverlayEvent::ScanDone),
        (OverlayState::Finished, OverlayAction::Exit)
    );
}

#[test]
fn missing_offsets_wait_ten_ms() {
    let no_pawn = ClientDllOffsets { dw_local_player_pawn: 0, ..client() };
    assert_eq!(
        overlay_step(BASE, &no_pawn, &schema(), OverlayState::Idle, OverlayEvent::KeyState(0)),
        (OverlayState::Idle, OverlayAction::Sleep { ms: 10 })
    );
    let no_matrix = ClientDllOffsets { dw_view_matrix: 0, ..client() };
    let s = OverlayState::AwaitTeam { local_pawn: LOCAL, addr: LOCAL + 0x10 };
    assert_eq!(
        overlay_step(BASE, &no_matrix, &schema(), s, OverlayEvent::Team(2)),
        (OverlayState::Idle, OverlayAction::Sleep { ms: 10 })
    );
}

#[test]
fn invalid_local_pawn_waits_ten_ms() {
    let s = OverlayState::AwaitLocalPawn { addr: BASE + 0x200 };
    assert_eq!(
        overlay_step(BASE, &client(), &schema(), s, OverlayEvent::LocalPawn(0)),
        (OverlayState::Idle, OverlayAction::Sleep { ms: 10 })
    );
    let pawn_addr_invalid = ClientDllOffsets { dw_local_player_pawn: 0x1000, ..client() };
    assert_eq!(
        overlay_step(0, &pawn_addr_invalid, &schema(), OverlayState::Idle, OverlayEvent::KeyState(0)),
        (OverlayState::Idle, OverlayAction::Sleep { ms: 10 })
    );
}

#[test]
fn team_defaults_to_zero() {
    let no_team = SchemaOffsets { m_i_team_num: 0, ..schema() };
    let s = OverlayState::AwaitLocalPawn { addr: BASE + 0x200 };
    assert_eq!(
        overlay_step(BASE, &client(), &no_team, s, OverlayEvent::LocalPawn(LOCAL)),
        (
            OverlayState::AwaitViewMatrix { local_pawn: LOCAL, my_team: 0, addr: BASE + 0x300 },
            OverlayAction::ReadViewMatrix { addr: BASE + 0x300 }
        )
    );
}

#[test]
fn invalid_matrix_address_scans_with_zero_matrix() {
    let c = ClientDllOffsets { dw_view_matrix: 0x1000, ..client() };
    let s = OverlayState::AwaitTeam { local_pawn: LOCAL, addr: LOCAL + 0x10 };
    assert_eq!(
        overlay_step(0, &c, &schema(), s, OverlayEvent::Team(3)),
        (
            OverlayState::Scanning { local_pawn: LOCAL, my_team: 3 },
            OverlayAction::ScanEntities { local_pawn: LOCAL, my_team: 3 }
        )
    );
}

#[test]
fn wrong_event_repeats_the_pending_action() {
    let s = OverlayState::AwaitTeam { local_pawn: LOCAL, addr: LOCAL + 0x10 };
    assert_eq!(
        overlay_step(BASE, &client(), &schema(), s, OverlayEvent::ScanDone),
        (s, OverlayAction::ReadTeam { addr: LOCAL + 0x10 })
    );
}
