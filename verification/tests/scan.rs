use lib::features::visuals::{
    controller_slot, entry_address, esp_start, esp_step, is_drawable_enemy, pawn_slot,
    ScanAction, ScanEvent, ScanState,
};
use lib::sdk::{ClientDllOffsets, SchemaOffsets};

const BASE: usize = 0x1_0000_0000;
const ES: usize = 0x2_0000_0000;
const LOCAL: usize = 0x7_0000_0000;

fn client() -> ClientDllOffsets {
    ClientDllOffsets {
        dw_local_player_pawn: 0x200,
        dw_view_matrix: 0x300,
        dw_game_entity_system: 0x100,
        dw_entity_list: 0,
        dw_planted_c4: 0,
        dw_game_rules: 0,
        dw_glow_manager: 0,
        dw_global_vars: 0,
        dw_weapon_c4: 0,
        dw_local_player_controller: 0,
    }
}

fn schema() -> SchemaOffsets {
    SchemaOffsets { m_i_team_num: 0x10, m_i_health: 0x20, m_v_old_origin: 0x30, m_h_player_pawn: 0x40 }
}

fn step(state: ScanState, event: ScanEvent) -> (ScanState, ScanAction) {
    esp_step(BASE, &client(), &schema(), LOCAL, 2, state, event)
}

#[test]
fn controller_slot_groups_shift_after_product() {
    assert_eq!(controller_slot(ES, 1), Some(ES + 16));
    assert_eq!(controller_slot(ES, 63), Some(ES + 16));
    assert_eq!(controller_slot(ES, 64), Some(ES + 17));
    assert_eq!(controller_slot(ES, 0x7FFF), Some(ES + 0x1FF + 16));
    assert_eq!(controller_slot(ES, 0x8000), Some(ES + 16));
    assert_eq!(controller_slot(usize::MAX - 10, 1), None);
}

#[test]
fn pawn_slot_groups_shift_before_product() {
    assert_eq!(pawn_slot(ES, 0x1FF), Some(ES + 16));
    assert_eq!(pawn_slot(ES, 0x203), Some(ES + 8 + 16));
    assert_eq!(pawn_slot(ES, 0x7FFF), Some(ES + 8 * 0x3F + 16));
    assert_eq!(pawn_slot(ES, 0x8000), Some(ES + 16));
    assert_eq!(pawn_slot(usize::MAX - 10, 0x203), None);
}

#[test]
fn entry_address_uses_low_nine_bits() {
    assert_eq!(entry_address(ES, 3), Some(ES + 360));
    assert_eq!(entry_address(ES, 0x203), Some(ES + 360));
    assert_eq!(entry_address(ES, 0x1FF), Some(ES + 120 * 0x1FF));
    assert_eq!(entry_address(usize::MAX, 1), None);
    assert_eq!(entry_address(usize::MAX, 0x200), Some(usize::MAX));
}

#[test]
fn drawable_enemy_rule() {
    let p = 0x6_0000_0000;
    assert!(is_drawable_enemy(p, LOCAL, 0x203, 50, 3, 2));
    assert!(is_drawable_enemy(p, LOCAL, 0x203, 100, 3, 2));
    assert!(!is_drawable_enemy(p, LOCAL, 0, 50, 3, 2));
    assert!(!is_drawable_enemy(p, LOCAL, 0xFFFF_FFFF, 50, 3, 2));
    assert!(!is_drawable_enemy(0x1000, LOCAL, 0x203, 50, 3, 2));
    assert!(!is_drawable_enemy(LOCAL, LOCAL, 0x203, 50, 3, 2));
    assert!(!is_drawable_enemy(p, LOCAL, 0x203, 0, 3, 2));
    assert!(!is_drawable_enemy(p, LOCAL, 0x203, 101, 3, 2));
    assert!(!is_drawable_enemy(p, LOCAL, 0x203, -5, 3, 2));
    assert!(!is_drawable_enemy(p, LOCAL, 0x203, 50, 2, 2));
}

#[test]
fn scan_walks_one_enemy_to_the_draw() {
    let (s, a) = esp_start(BASE, &client());
    assert_eq!(s, ScanState::EntitySystem { addr: BASE + 0x100 });
    assert_eq!(a, ScanAction::ReadWord { addr: BASE + 0x100 });
    let (s, a) = step(s, ScanEvent::Word(ES));
    assert_eq!(s, ScanState::ListEntry { es: ES, index: 1, addr: ES + 16 });
    assert_eq!(a, ScanAction::ReadWord { addr: ES + 16 });
    let le = 0x3_0000_0000;
    let (s, a) = step(s, ScanEvent::Word(le));
    assert_eq!(a, ScanAction::ReadWord { addr: le + 120 });
    let c = 0x4_0000_0000;
    let (s, a) = step(s, ScanEvent::Word(c));
    assert_eq!(a, ScanAction::ReadHandle { addr: c + 0x40 });
    let (s, a) = step(s, ScanEvent::Handle(0x203));
    assert_eq!(a, ScanAction::ReadWord { addr: ES + 24 });
    let ple = 0x5_0000_0000;
    let (s, a) = step(s, ScanEvent::Word(ple));
    assert_eq!(a, ScanAction::ReadWord { addr: ple + 360 });
    let p = 0x6_0000_0000;
    let (s, a) = step(s, ScanEvent::Word(p));
    assert_eq!(a, ScanAction::ReadInt { addr: p + 0x20 });
    let (s, a) = step(s, ScanEvent::Int(50));
    assert_eq!(a, ScanAction::ReadInt { addr: p + 0x10 });
    let (s, a) = step(s, ScanEvent::Int(3));
    assert_eq!(s, ScanState::Origin { es: ES, index: 1, health: 50, addr: p + 0x30 });
    assert_eq!(a, ScanAction::ReadOrigin { addr: p + 0x30 });
    let (s, a) = step(s, ScanEvent::OriginRead);
    assert_eq!(a, ScanAction::ReadWord { addr: BASE + 0x200 });
    let (s, a) = step(s, ScanEvent::Word(LOCAL));
    assert_eq!(a, ScanAction::ReadLocalOrigin { addr: LOCAL + 0x30 });
    let (s, a) = step(s, ScanEvent::OriginRead);
    assert_eq!(s, ScanState::Draw { es: ES, index: 1, health: 50 });
    assert_eq!(a, ScanAction::DrawEnemy { health: 50 });
    let (s, a) = step(s, ScanEvent::Drawn);
    assert_eq!(s, ScanState::ListEntry { es: ES, index: 2, addr: ES + 16 });
    assert_eq!(a, ScanAction::ReadWord { addr: ES + 16 });
}

#[test]
fn scan_passes_over_teammates_and_bad_entities() {
    let next = (ScanState::ListEntry { es: ES, index: 5, addr: ES + 16 }, ScanAction::ReadWord { addr: ES + 16 });
    let p = 0x6_0000_0000;
    let team = ScanState::Team { es: ES, index: 4, handle: 0x203, pawn: p, health: 50, addr: p + 0x10 };
    assert_eq!(step(team, ScanEvent::Int(2)), next);
    let dead = ScanState::Team { es: ES, index: 4, handle: 0x203, pawn: p, health: 0, addr: p + 0x10 };
    assert_eq!(step(dead, ScanEvent::Int(3)), next);
    let handle = ScanState::Handle { es: ES, index: 4, addr: 0x4_0000_0040 };
    assert_eq!(step(handle, ScanEvent::Handle(0)), next);
    assert_eq!(step(handle, ScanEvent::Handle(0xFFFF_FFFF)), next);
    let pawn = ScanState::Pawn { es: ES, index: 4, handle: 0x203, addr: 0x5_0000_0168 };
    assert_eq!(step(pawn, ScanEvent::Word(LOCAL)), next);
    assert_eq!(step(pawn, ScanEvent::Word(0x1000)), next);
    let list = ScanState::ListEntry { es: ES, index: 4, addr: ES + 16 };
    assert_eq!(step(list, ScanEvent::Word(0)), next);
}

#[test]
fn scan_ends_on_bad_entity_system_and_after_last_index() {
    let s = ScanState::EntitySystem { addr: BASE + 0x100 };
    assert_eq!(step(s, ScanEvent::Word(0x2000)), (ScanState::Done, ScanAction::Finish));
    let last = ScanState::Draw { es: ES, index: 63, health: 10 };
    assert_eq!(step(last, ScanEvent::Drawn), (ScanState::Done, ScanAction::Finish));
    assert_eq!(step(ScanState::Done, ScanEvent::Drawn), (ScanState::Done, ScanAction::Finish));
}

#[test]
fn scan_skips_local_origin_when_local_pawn_address_invalid() {
    let client = ClientDllOffsets { dw_local_player_pawn: 0x1000, ..client() };
    let s = ScanState::Origin { es: ES, index: 7, health: 40, addr: 0x6_0000_0030 };
    assert_eq!(
        esp_step(0, &client, &schema(), LOCAL, 2, s, ScanEvent::OriginRead),
        (ScanState::Draw { es: ES, index: 7, health: 40 }, ScanAction::DrawEnemy { health: 40 })
    );
}

#[test]
fn scan_repeats_pending_read_on_wrong_event() {
    let s = ScanState::Health { es: ES, index: 3, handle: 0x203, pawn: 0x6_0000_0000, addr: 0x6_0000_0020 };
    assert_eq!(step(s, ScanEvent::Drawn), (s, ScanAction::ReadInt { addr: 0x6_0000_0020 }));
}

#[test]
fn scan_draws_at_most_once_per_index_in_increasing_order() {
    let mut state = ScanState::ListEntry { es: ES, index: 1, addr: ES + 16 };
    let mut drawn = Vec::new();
    loop {
        let event = match state {
            ScanState::ListEntry { .. } => ScanEvent::Word(0x3_0000_0000),
            ScanState::Controller { .. } => ScanEvent::Word(0x4_0000_0000),
            ScanState::Handle { .. } => ScanEvent::Handle(0x203),
            ScanState::PawnListEntry { .. } => ScanEvent::Word(0x5_0000_0000),
            ScanState::Pawn { .. } => ScanEvent::Word(0x6_0000_0000),
            ScanState::Health { .. } => ScanEvent::Int(80),
            ScanState::Team { .. } => ScanEvent::Int(3),
            ScanState::Origin { .. } | ScanState::LocalOrigin { .. } => ScanEvent::OriginRead,
            ScanState::LocalPawn { .. } => ScanEvent::Word(LOCAL),
            ScanState::Draw { .. } => ScanEvent::Drawn,
            ScanState::EntitySystem { .. } => ScanEvent::Word(ES),
            ScanState::Done => break,
        };
        let (next, action) = step(state, event);
        if let ScanAction::DrawEnemy { .. } = action {
            if let ScanState::Draw { index, .. } = next {
                drawn.push(index);
            }
        }
        state = next;
    }
    assert_eq!(drawn, (1..64).collect::<Vec<usize>>());
}
