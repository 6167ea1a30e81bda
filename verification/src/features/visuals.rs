//! The integer side of the entity scan: where the entity list keeps each
//! entry, which entities are drawn, and the order in which the scan asks for
//! the reads it needs. Positions, distances and screen boxes are computed by
//! the caller from the words it reads.
use vstd::prelude::*;

use crate::accepted_address;
use crate::sdk::{ClientDllOffsets, SchemaOffsets};
use crate::security::encrypted_offsets::{dw_game_entity_system, dw_local_player_pawn};
use crate::security::encrypted_schemas::{m_h_player_pawn, m_i_health, m_i_team_num, m_v_old_origin};
use crate::utils::common::{lemma_offset_addr_is_sum, offset_addr, valid_offset_addr};

verus! {

/// Offset of the list-entry pointer for controller index `i` inside the
/// entity system: `(8 * (i & 0x7FFF)) >> 9`, plus 16. The shift applies to the
/// product, so for every index below 64 this offset is 16.
pub open spec fn controller_slot_offset(i: usize) -> int {
    (8 * (i & 0x7FFF)) / 512 + 16
}

/// Offset of the list-entry pointer for the entity that `handle` names:
/// `8 * ((handle & 0x7FFF) >> 9)`, plus 16.
pub open spec fn pawn_slot_offset(handle: u32) -> int {
    8 * ((handle & 0x7FFF) / 512) + 16
}

/// Offset of slot `idx` inside a list entry: 120 bytes per slot, the index
/// taken modulo 512.
pub open spec fn entry_offset(idx: usize) -> int {
    120 * (idx & 0x1FF)
}

/// The address of the list-entry pointer for controller index `i`, or `None`
/// when it does not fit in a `usize`.
pub fn controller_slot(es: usize, i: usize) -> (r: Option<usize>)
    ensures
        r == offset_addr(es, controller_slot_offset(i)),
{
    let m: usize = i & 0x7FFF;
    assert(m <= 0x7FFF) by (bit_vector)
        requires
            m == i & 0x7FFF,
    ;
    let prod: usize = 8 * m;
    let q: usize = prod >> 9usize;
    assert(q == prod / 512) by (bit_vector)
        requires
            q == prod >> 9usize,
    ;
    es.checked_add(q + 16)
}

/// The address of the list-entry pointer for the entity that `handle` names,
/// or `None` when it does not fit in a `usize`.
pub fn pawn_slot(es: usize, handle: u32) -> (r: Option<usize>)
    ensures
        r == offset_addr(es, pawn_slot_offset(handle)),
{
    let m: u32 = handle & 0x7FFF;
    let q: u32 = m >> 9u32;
    assert(q == m / 512 && q <= 0x3F) by (bit_vector)
        requires
            m == handle & 0x7FFF,
            q == m >> 9u32,
    ;
    es.checked_add(8 * (q as usize) + 16)
}

/// The address of slot `idx` of the list entry at `list`, or `None` when it
/// does not fit in a `usize`.
pub fn entry_address(list: usize, idx: usize) -> (r: Option<usize>)
    ensures
        r == offset_addr(list, entry_offset(idx)),
{
    let m: usize = idx & 0x1FF;
    assert(m <= 0x1FF) by (bit_vector)
        requires
            m == idx & 0x1FF,
    ;
    list.checked_add(120 * m)
}

/// The drawing rule: a set pawn handle (neither 0 nor `0xFFFFFFFF`), a pawn
/// address that passes `is_valid` and is not the local player's, health in
/// `1..=100`, and another team.
pub open spec fn drawable_enemy(
    pawn: usize,
    local: usize,
    handle: u32,
    health: i32,
    team: i32,
    my_team: i32,
) -> bool {
    &&& handle != 0
    &&& handle != 0xFFFF_FFFF
    &&& accepted_address(pawn)
    &&& pawn != local
    &&& 0 < health <= 100
    &&& team != my_team
}

/// Only the teams' difference matters to the drawing rule: swapping the
/// entity's and the local team never changes it, and with a set handle, a
/// live pawn in the user-mode window other than the local one and health in
/// `1..=100`, an entity is drawn exactly when its team differs from the local
/// team. A drawn entity always has a set handle, health in `1..=100`, and is
/// not the local pawn.
pub proof fn lemma_drawable_enemy_teams(
    pawn: usize,
    local: usize,
    handle: u32,
    health: i32,
    team: i32,
    my_team: i32,
)
    ensures
        drawable_enemy(pawn, local, handle, health, team, my_team) == drawable_enemy(
            pawn,
            local,
            handle,
            health,
            my_team,
            team,
        ),
        (handle != 0 && handle != 0xFFFF_FFFF && pawn != local && 1 <= health <= 100 && 0x10000
            < pawn < 0x7FFF_FFFF_FFFF) ==> (drawable_enemy(pawn, local, handle, health, team, my_team)
            <==> team != my_team),
        drawable_enemy(pawn, local, handle, health, team, my_team) ==> (handle != 0 && handle
            != 0xFFFF_FFFF && pawn != local && 1 <= health <= 100),
{
}

/// The slot offsets in plain arithmetic: the controller's list-entry offset is
/// `8 * (i mod 32768) / 512 + 16` (so 16 for every index below 64), the pawn's
/// is `8 * ((handle mod 32768) / 512) + 16`, and slot `idx` of a list entry
/// lies `120 * (idx mod 512)` bytes in.
pub proof fn lemma_slot_offsets_arith(i: usize, handle: u32, idx: usize)
    ensures
        controller_slot_offset(i) == (8 * (i % 32768)) / 512 + 16,
        i < 64 ==> controller_slot_offset(i) == 16,
        pawn_slot_offset(handle) == 8 * ((handle % 32768) / 512) + 16,
        entry_offset(idx) == 120 * (idx % 512),
{
    assert((i & 0x7FFF) == i % 32768) by (bit_vector);
    assert((handle & 0x7FFF) == handle % 32768) by (bit_vector);
    assert((idx & 0x1FF) == idx % 512) by (bit_vector);
}

/// Whether an entity is drawn: its pawn handle is set (neither 0 nor
/// `0xFFFFFFFF`), its pawn address passes `is_valid` and is not the local
/// player's, it is alive with at most 100 health, and it is on another team.
pub fn is_drawable_enemy(
    pawn: usize,
    local: usize,
    handle: u32,
    health: i32,
    team: i32,
    my_team: i32,
) -> (r: bool)
    ensures
        r == drawable_enemy(pawn, local, handle, health, team, my_team),
{
    handle != 0 && handle != 0xFFFF_FFFF && crate::is_valid(pawn) && pawn != local && health > 0
        && health <= 100 && team != my_team
}

/// Indices of the controllers that the scan visits run from 1 up to this
/// bound, exclusive.
pub const SCAN_END: usize = 64;

/// Where the entity scan stands: which read it waits for, and what it has
/// learnt of the current entity so far. `es` is the entity system address,
/// `index` the controller index.
#[derive(Clone, Copy, Debug, PartialEq, Eq)]
pub enum ScanState {
    /// Waits for the entity system pointer.
    EntitySystem { addr: usize },
    /// Waits for the list-entry pointer of controller `index`.
    ListEntry { es: usize, index: usize, addr: usize },
    /// Waits for the controller pointer.
    Controller { es: usize, index: usize, addr: usize },
    /// Waits for the controller's pawn handle.
    Handle { es: usize, index: usize, addr: usize },
    /// Waits for the list-entry pointer of the pawn.
    PawnListEntry { es: usize, index: usize, handle: u32, addr: usize },
    /// Waits for the pawn pointer.
    Pawn { es: usize, index: usize, handle: u32, addr: usize },
    /// Waits for the pawn's health.
    Health { es: usize, index: usize, handle: u32, pawn: usize, addr: usize },
    /// Waits for the pawn's team.
    Team { es: usize, index: usize, handle: u32, pawn: usize, health: i32, addr: usize },
    /// Waits for the caller to read the pawn's origin.
    Origin { es: usize, index: usize, health: i32, addr: usize },
    /// Waits for the local pawn pointer, to find the local origin.
    LocalPawn { es: usize, index: usize, health: i32, addr: usize },
    /// Waits for the caller to read the local origin.
    LocalOrigin { es: usize, index: usize, health: i32, addr: usize },
    /// Waits for the caller to draw the entity.
    Draw { es: usize, index: usize, health: i32 },
    /// The scan is over.
    Done,
}

/// What the scan asks of the caller next.
#[derive(Clone, Copy, Debug, PartialEq, Eq)]
pub enum ScanAction {
    /// Read the pointer-sized word at `addr` and answer with `Word`.
    ReadWord { addr: usize },
    /// Read the 32-bit handle at `addr` and answer with `Handle`.
    ReadHandle { addr: usize },
    /// Read the 32-bit signed integer at `addr` and answer with `Int`.
    ReadInt { addr: usize },
    /// Read the entity's origin (three floats) at `addr`, then answer with
    /// `OriginRead`.
    ReadOrigin { addr: usize },
    /// Read the local player's origin at `addr`, then answer with
    /// `OriginRead`.
    ReadLocalOrigin { addr: usize },
    /// Project the entity with the origins read for it (the local origin is
    /// zero when none was read), add it to the draw list with `health` when it
    /// lands on screen, then answer with `Drawn`.
    DrawEnemy { health: i32 },
    /// The scan is over.
    Finish,
}

/// What the caller answers.
#[derive(Clone, Copy, Debug, PartialEq, Eq)]
pub enum ScanEvent {
    Word(usize),
    Handle(u32),
    Int(i32),
    OriginRead,
    Drawn,
}

/// The first controller at index `from` or above whose list-entry address
/// fits, asked for; the end of the scan when there is none below `SCAN_END`.
pub open spec fn scan_from(es: usize, from: int) -> (ScanState, ScanAction)
    decreases SCAN_END - from,
{
    if from < 0 || from >= SCAN_END {
        (ScanState::Done, ScanAction::Finish)
    } else {
        match offset_addr(es, controller_slot_offset(from as usize)) {
            Some(a) => (ScanState::ListEntry { es, index: from as usize, addr: a }, ScanAction::ReadWord { addr: a }),
            None => scan_from(es, from + 1),
        }
    }
}

/// How far the scan has come: 0 before the entity system is known, the
/// controller index while an entity is examined, `SCAN_END` once done.
pub open spec fn scan_position(state: ScanState) -> int {
    match state {
        ScanState::EntitySystem { .. } => 0,
        ScanState::ListEntry { index, .. } => index as int,
        ScanState::Controller { index, .. } => index as int,
        ScanState::Handle { index, .. } => index as int,
        ScanState::PawnListEntry { index, .. } => index as int,
        ScanState::Pawn { index, .. } => index as int,
        ScanState::Health { index, .. } => index as int,
        ScanState::Team { index, .. } => index as int,
        ScanState::Origin { index, .. } => index as int,
        ScanState::LocalPawn { index, .. } => index as int,
        ScanState::LocalOrigin { index, .. } => index as int,
        ScanState::Draw { index, .. } => index as int,
        ScanState::Done => SCAN_END as int,
    }
}

/// A state the scan can be in: before the entity system is known, finished,
/// or examining a controller index in `1..SCAN_END`.
pub open spec fn scan_in_range(state: ScanState) -> bool {
    state is EntitySystem || state is Done || 1 <= scan_position(state) < SCAN_END
}

/// Moving on from `from` lands on a controller index in `from..SCAN_END`, or
/// ends the scan.
pub proof fn lemma_scan_from_bounds(es: usize, from: int)
    requires
        0 <= from,
    ensures
        scan_from(es, from).0 is Done || (scan_from(es, from).0 is ListEntry && from <= scan_position(
            scan_from(es, from).0,
        ) < SCAN_END),
    decreases SCAN_END - from,
{
    if from < SCAN_END {
        if offset_addr(es, controller_slot_offset(from as usize)) is None {
            lemma_scan_from_bounds(es, from + 1);
        }
    }
}

/// The entity system pointer: an invalid one ends the scan; otherwise the scan
/// starts at controller 1.
pub open spec fn on_entity_system(es: usize) -> (ScanState, ScanAction) {
    if accepted_address(es) {
        scan_from(es, 1)
    } else {
        (ScanState::Done, ScanAction::Finish)
    }
}

/// The list entry of controller `index`: when valid, the controller pointer is
/// read from slot `index` of it; otherwise the scan moves on.
pub open spec fn on_list_entry(es: usize, index: usize, le: usize) -> (ScanState, ScanAction) {
    if accepted_address(le) && offset_addr(le, entry_offset(index)) is Some {
        let a: usize = offset_addr(le, entry_offset(index))->0;
        (ScanState::Controller { es, index, addr: a }, ScanAction::ReadWord { addr: a })
    } else {
        scan_from(es, index + 1)
    }
}

/// The controller pointer: when valid, its pawn handle is read; otherwise the
/// scan moves on.
pub open spec fn on_controller(schema: SchemaOffsets, es: usize, index: usize, c: usize) -> (
    ScanState,
    ScanAction,
) {
    if accepted_address(c) && offset_addr(c, schema.m_h_player_pawn as int) is Some {
        let a: usize = offset_addr(c, schema.m_h_player_pawn as int)->0;
        (ScanState::Handle { es, index, addr: a }, ScanAction::ReadHandle { addr: a })
    } else {
        scan_from(es, index + 1)
    }
}

/// The pawn handle: a set handle names the list entry to read; 0 and
/// `0xFFFFFFFF` move the scan on.
pub open spec fn on_handle(es: usize, index: usize, h: u32) -> (ScanState, ScanAction) {
    if h != 0 && h != 0xFFFF_FFFF && offset_addr(es, pawn_slot_offset(h)) is Some {
        let a: usize = offset_addr(es, pawn_slot_offset(h))->0;
        (ScanState::PawnListEntry { es, index, handle: h, addr: a }, ScanAction::ReadWord { addr: a })
    } else {
        scan_from(es, index + 1)
    }
}

/// The pawn's list entry: when valid, the pawn pointer is read from the slot
/// that the handle names; otherwise the scan moves on.
pub open spec fn on_pawn_list_entry(es: usize, index: usize, handle: u32, ple: usize) -> (
    ScanState,
    ScanAction,
) {
    if accepted_address(ple) && offset_addr(ple, entry_offset(handle as usize)) is Some {
        let a: usize = offset_addr(ple, entry_offset(handle as usize))->0;
        (ScanState::Pawn { es, index, handle, addr: a }, ScanAction::ReadWord { addr: a })
    } else {
        scan_from(es, index + 1)
    }
}

/// The pawn pointer: a valid pawn other than the local one, whose health
/// address is valid, has its health read; otherwise the scan moves on.
pub open spec fn on_pawn(
    schema: SchemaOffsets,
    local_pawn: usize,
    es: usize,
    index: usize,
    handle: u32,
    p: usize,
) -> (ScanState, ScanAction) {
    if accepted_address(p) && p != local_pawn && valid_offset_addr(p, schema.m_i_health as int) is Some {
        let a: usize = valid_offset_addr(p, schema.m_i_health as int)->0;
        (ScanState::Health { es, index, handle, pawn: p, addr: a }, ScanAction::ReadInt { addr: a })
    } else {
        scan_from(es, index + 1)
    }
}

/// The pawn's health: when the team address is valid, the team is read;
/// otherwise the scan moves on.
pub open spec fn on_health(
    schema: SchemaOffsets,
    es: usize,
    index: usize,
    handle: u32,
    pawn: usize,
    hp: i32,
) -> (ScanState, ScanAction) {
    if valid_offset_addr(pawn, schema.m_i_team_num as int) is Some {
        let a: usize = valid_offset_addr(pawn, schema.m_i_team_num as int)->0;
        (
            ScanState::Team { es, index, handle, pawn, health: hp, addr: a },
            ScanAction::ReadInt { addr: a },
        )
    } else {
        scan_from(es, index + 1)
    }
}

/// The pawn's team: a drawable enemy whose origin address is valid has its
/// origin read; otherwise the scan moves on.
pub open spec fn on_team(
    schema: SchemaOffsets,
    local_pawn: usize,
    my_team: i32,
    es: usize,
    index: usize,
    handle: u32,
    pawn: usize,
    health: i32,
    t: i32,
) -> (ScanState, ScanAction) {
    if drawable_enemy(pawn, local_pawn, handle, health, t, my_team) && valid_offset_addr(
        pawn,
        schema.m_v_old_origin as int,
    ) is Some {
        let a: usize = valid_offset_addr(pawn, schema.m_v_old_origin as int)->0;
        (ScanState::Origin { es, index, health, addr: a }, ScanAction::ReadOrigin { addr: a })
    } else {
        scan_from(es, index + 1)
    }
}

/// The entity's origin was read: the local pawn pointer is read when its
/// address is valid; otherwise the entity is drawn against a zero local origin.
pub open spec fn on_origin(base: usize, sdk: ClientDllOffsets, es: usize, index: usize, health: i32) -> (
    ScanState,
    ScanAction,
) {
    match valid_offset_addr(base, sdk.dw_local_player_pawn as int) {
        Some(a) => (ScanState::LocalPawn { es, index, health, addr: a }, ScanAction::ReadWord { addr: a }),
        None => (ScanState::Draw { es, index, health }, ScanAction::DrawEnemy { health }),
    }
}

/// The local pawn pointer: the local origin is read at the origin offset from
/// it; when that sum does not fit, the entity is drawn against a zero local
/// origin.
pub open spec fn on_local_pawn(schema: SchemaOffsets, es: usize, index: usize, health: i32, lp: usize) -> (
    ScanState,
    ScanAction,
) {
    match offset_addr(lp, schema.m_v_old_origin as int) {
        Some(a) => (
            ScanState::LocalOrigin { es, index, health, addr: a },
            ScanAction::ReadLocalOrigin { addr: a },
        ),
        None => (ScanState::Draw { es, index, health }, ScanAction::DrawEnemy { health }),
    }
}

/// Walking the controllers: from index `from` in `1..SCAN_END` the scan asks
/// for the list entry of that very index, at `es + 16`, when that sum fits;
/// from `SCAN_END` on it is over; and every list entry it asks for belongs to
/// the same entity system, at an index from `from` up to 63, at `es + 16`.
pub proof fn lemma_scan_walk(es: usize, from: int)
    requires
        0 <= from,
    ensures
        from >= SCAN_END ==> scan_from(es, from) == (ScanState::Done, ScanAction::Finish),
        (from < SCAN_END && es + 16 <= usize::MAX) ==> scan_from(es, from) == (
            ScanState::ListEntry { es, index: from as usize, addr: (es + 16) as usize },
            ScanAction::ReadWord { addr: (es + 16) as usize },
        ),
        scan_from(es, from).0 matches ScanState::ListEntry { es: e, index, addr } ==> (e == es
            && from <= index < SCAN_END && addr as int == es + 16),
    decreases SCAN_END - from,
{
    if from < SCAN_END {
        lemma_slot_offsets_arith(from as usize, 0, 0);
        lemma_offset_addr_is_sum(es, 16);
        if es + 16 > usize::MAX {
            lemma_scan_walk(es, from + 1);
        }
    }
}

/// The first reads of an entity, in plain arithmetic: an invalid entity
/// system ends the scan; an invalid list entry or controller moves on to the
/// next index, and so does a handle of 0 or `0xFFFFFFFF`; otherwise the
/// controller is read at `list_entry + 120 * (index mod 512)`, the handle at
/// `controller + m_h_player_pawn`, the pawn's list entry at
/// `es + 8 * ((handle mod 32768) / 512) + 16`, and the pawn at
/// `pawn_list_entry + 120 * (handle mod 512)`, whenever the sum fits.
pub proof fn lemma_scan_entry_reads(
    schema: SchemaOffsets,
    es: usize,
    index: usize,
    w: usize,
    h: u32,
)
    ensures
        !accepted_address(es) ==> on_entity_system(es) == (ScanState::Done, ScanAction::Finish),
        accepted_address(es) ==> on_entity_system(es) == scan_from(es, 1),
        !accepted_address(w) ==> on_list_entry(es, index, w) == scan_from(es, index + 1),
        (accepted_address(w) && w + 120 * (index % 512) <= usize::MAX) ==> on_list_entry(es, index, w)
            == (
            ScanState::Controller { es, index, addr: (w + 120 * (index % 512)) as usize },
            ScanAction::ReadWord { addr: (w + 120 * (index % 512)) as usize },
        ),
        !accepted_address(w) ==> on_controller(schema, es, index, w) == scan_from(es, index + 1),
        (accepted_address(w) && w + schema.m_h_player_pawn <= usize::MAX) ==> on_controller(
            schema,
            es,
            index,
            w,
        ) == (
            ScanState::Handle { es, index, addr: (w + schema.m_h_player_pawn) as usize },
            ScanAction::ReadHandle { addr: (w + schema.m_h_player_pawn) as usize },
        ),
        (h == 0 || h == 0xFFFF_FFFF) ==> on_handle(es, index, h) == scan_from(es, index + 1),
        (h != 0 && h != 0xFFFF_FFFF && es + 8 * ((h % 32768) / 512) + 16 <= usize::MAX)
            ==> on_handle(es, index, h) == (
            ScanState::PawnListEntry {
                es,
                index,
                handle: h,
                addr: (es + 8 * ((h % 32768) / 512) + 16) as usize,
            },
            ScanAction::ReadWord { addr: (es + 8 * ((h % 32768) / 512) + 16) as usize },
        ),
        !accepted_address(w) ==> on_pawn_list_entry(es, index, h, w) == scan_from(es, index + 1),
        (accepted_address(w) && w + 120 * (h % 512) <= usize::MAX) ==> on_pawn_list_entry(
            es,
            index,
            h,
            w,
        ) == (
            ScanState::Pawn { es, index, handle: h, addr: (w + 120 * (h % 512)) as usize },
            ScanAction::ReadWord { addr: (w + 120 * (h % 512)) as usize },
        ),
{
    lemma_slot_offsets_arith(index, h, index);
    lemma_slot_offsets_arith(h as usize, h, h as usize);
    assert((h as usize) % 512 == h % 512);
    lemma_offset_addr_is_sum(w, 120 * (index % 512));
    lemma_offset_addr_is_sum(w, schema.m_h_player_pawn as int);
    lemma_offset_addr_is_sum(es, 8 * ((h % 32768) / 512) + 16);
    lemma_offset_addr_is_sum(w, 120 * (h % 512));
}

/// The pawn and what follows, in plain arithmetic: an invalid pawn, or the
/// local pawn, moves the scan on; a valid other pawn has its health read at
/// `pawn + m_i_health` when that address is valid; the team is read at
/// `pawn + m_i_team_num` when that address is valid; an entity on the local
/// team, dead, above 100 health or without a set handle moves the scan on;
/// a drawable enemy has its origin read at `pawn + m_v_old_origin` when that
/// address is valid; the local pawn pointer is read at
/// `base + dw_local_player_pawn` when valid, and the local origin at
/// `local_pawn + m_v_old_origin`.
pub proof fn lemma_scan_entity_reads(
    base: usize,
    sdk: ClientDllOffsets,
    schema: SchemaOffsets,
    local_pawn: usize,
    my_team: i32,
    es: usize,
    index: usize,
    handle: u32,
    p: usize,
    health: i32,
    t: i32,
)
    ensures
        (!accepted_address(p) || p == local_pawn) ==> on_pawn(schema, local_pawn, es, index, handle, p)
            == scan_from(es, index + 1),
        (accepted_address(p) && p != local_pawn && p + schema.m_i_health <= usize::MAX
            && accepted_address((p + schema.m_i_health) as usize)) ==> on_pawn(
            schema,
            local_pawn,
            es,
            index,
            handle,
            p,
        ) == (
            ScanState::Health { es, index, handle, pawn: p, addr: (p + schema.m_i_health) as usize },
            ScanAction::ReadInt { addr: (p + schema.m_i_health) as usize },
        ),
        (p + schema.m_i_team_num <= usize::MAX && accepted_address((p + schema.m_i_team_num) as usize))
            ==> on_health(schema, es, index, handle, p, health) == (
            ScanState::Team {
                es,
                index,
                handle,
                pawn: p,
                health,
                addr: (p + schema.m_i_team_num) as usize,
            },
            ScanAction::ReadInt { addr: (p + schema.m_i_team_num) as usize },
        ),
        (t == my_team || health <= 0 || health > 100 || handle == 0 || handle == 0xFFFF_FFFF)
            ==> on_team(schema, local_pawn, my_team, es, index, handle, p, health, t) == scan_from(
            es,
            index + 1,
        ),
        (drawable_enemy(p, local_pawn, handle, health, t, my_team) && p + schema.m_v_old_origin
            <= usize::MAX && accepted_address((p + schema.m_v_old_origin) as usize)) ==> on_team(
            schema,
            local_pawn,
            my_team,
            es,
            index,
            handle,
            p,
            health,
            t,
        ) == (
            ScanState::Origin { es, index, health, addr: (p + schema.m_v_old_origin) as usize },
            ScanAction::ReadOrigin { addr: (p + schema.m_v_old_origin) as usize },
        ),
        on_origin(base, sdk, es, index, health).1 matches ScanAction::ReadWord { addr } ==> addr as int
            == base + sdk.dw_local_player_pawn,
        on_local_pawn(schema, es, index, health, p).1 matches ScanAction::ReadLocalOrigin { addr }
            ==> addr as int == p + schema.m_v_old_origin,
{
    lemma_offset_addr_is_sum(p, schema.m_i_health as int);
    lemma_offset_addr_is_sum(p, schema.m_i_team_num as int);
    lemma_offset_addr_is_sum(p, schema.m_v_old_origin as int);
    lemma_offset_addr_is_sum(base, sdk.dw_local_player_pawn as int);
}

/// The read that a state waits for, asked again.
pub open spec fn scan_pending(state: ScanState) -> ScanAction {
    match state {
        ScanState::EntitySystem { addr } => ScanAction::ReadWord { addr },
        ScanState::ListEntry { addr, .. } => ScanAction::ReadWord { addr },
        ScanState::Controller { addr, .. } => ScanAction::ReadWord { addr },
        ScanState::Handle { addr, .. } => ScanAction::ReadHandle { addr },
        ScanState::PawnListEntry { addr, .. } => ScanAction::ReadWord { addr },
        ScanState::Pawn { addr, .. } => ScanAction::ReadWord { addr },
        ScanState::Health { addr, .. } => ScanAction::ReadInt { addr },
        ScanState::Team { addr, .. } => ScanAction::ReadInt { addr },
        ScanState::Origin { addr, .. } => ScanAction::ReadOrigin { addr },
        ScanState::LocalPawn { addr, .. } => ScanAction::ReadWord { addr },
        ScanState::LocalOrigin { addr, .. } => ScanAction::ReadLocalOrigin { addr },
        ScanState::Draw { health, .. } => ScanAction::DrawEnemy { health },
        ScanState::Done => ScanAction::Finish,
    }
}

/// Whether `event` is the answer that `state` waits for.
pub open spec fn scan_answers(state: ScanState, event: ScanEvent) -> bool {
    match state {
        ScanState::Handle { .. } => event is Handle,
        ScanState::Health { .. } | ScanState::Team { .. } => event is Int,
        ScanState::Origin { .. } | ScanState::LocalOrigin { .. } => event is OriginRead,
        ScanState::Draw { .. } => event is Drawn,
        ScanState::Done => true,
        _ => event is Word,
    }
}

/// Asks for the first controller's list entry at index `from` or above whose
/// address fits.
fn scan_from_exec(es: usize, from: usize) -> (r: (ScanState, ScanAction))
    ensures
        r == scan_from(es, from as int),
        r.0 is Done || (r.0 is ListEntry && from <= scan_position(r.0) < SCAN_END),
{
    proof {
        lemma_scan_from_bounds(es, from as int);
    }
    let mut j: usize = from;
    while j < SCAN_END
        invariant
            from <= j,
            scan_from(es, from as int) == scan_from(es, j as int),
        decreases SCAN_END - j,
    {
        match controller_slot(es, j) {
            Some(a) => {
                return (ScanState::ListEntry { es, index: j, addr: a }, ScanAction::ReadWord { addr: a });
            },
            None => {},
        }
        j += 1;
    }
    (ScanState::Done, ScanAction::Finish)
}

/// Moves on to the controller after `index`.
fn scan_next(es: usize, index: usize) -> (r: (ScanState, ScanAction))
    ensures
        r == scan_from(es, index + 1),
        r.0 is Done || (r.0 is ListEntry && index < scan_position(r.0) < SCAN_END),
{
    proof {
        lemma_scan_from_bounds(es, index + 1);
    }
    if index >= SCAN_END {
        (ScanState::Done, ScanAction::Finish)
    } else {
        scan_from_exec(es, index + 1)
    }
}

/// `base + off` when it fits and passes `is_valid`.
fn checked_valid_addr(base: usize, off: usize) -> (r: Option<usize>)
    ensures
        r == valid_offset_addr(base, off as int),
{
    match base.checked_add(off) {
        Some(a) => if crate::is_valid(a) {
            Some(a)
        } else {
            None
        },
        None => None,
    }
}

/// Starts the scan: asks for the entity system pointer at its offset in
/// `client.dll`, or ends at once when that address does not fit.
pub fn esp_start(base: usize, sdk: &ClientDllOffsets) -> (r: (ScanState, ScanAction))
    ensures
        r == (match offset_addr(base, sdk.dw_game_entity_system as int) {
            Some(a) => (ScanState::EntitySystem { addr: a }, ScanAction::ReadWord { addr: a }),
            None => (ScanState::Done, ScanAction::Finish),
        }),
{
    match base.checked_add(dw_game_entity_system(sdk)) {
        Some(a) => (ScanState::EntitySystem { addr: a }, ScanAction::ReadWord { addr: a }),
        None => (ScanState::Done, ScanAction::Finish),
    }
}

/// One step of the entity scan over controllers 1 to 63. Every pointer it
/// reads must pass `is_valid`, and every address is a checked `usize` sum; an
/// entity whose check fails, or whose address does not fit, is passed over.
/// An entity is drawn when `is_drawable_enemy` holds and its origin address
/// passes `is_valid`. An event that does not answer the pending read leaves
/// the state as it is and asks for that read again.
pub fn esp_step(
    base: usize,
    sdk: &ClientDllOffsets,
    schema: &SchemaOffsets,
    local_pawn: usize,
    my_team: i32,
    state: ScanState,
    event: ScanEvent,
) -> (r: (ScanState, ScanAction))
    ensures
        // A finished scan stays finished.
        state is Done ==> r == (ScanState::Done, ScanAction::Finish),
        // Entity system: an invalid pointer ends the scan; otherwise it starts
        // at controller 1.
        state is EntitySystem ==> (event matches ScanEvent::Word(es) ==> r == on_entity_system(es)),
        // List entry: must be valid; the controller sits in slot `index`.
        state matches ScanState::ListEntry { es, index, .. } ==> (event matches ScanEvent::Word(le)
            ==> r == on_list_entry(es, index, le)),
        // Controller: must be valid; its pawn handle is read next.
        state matches ScanState::Controller { es, index, .. } ==> (event matches ScanEvent::Word(c)
            ==> r == on_controller(*schema, es, index, c)),
        // Handle: must be neither 0 nor 0xFFFFFFFF; it names the pawn's list entry.
        state matches ScanState::Handle { es, index, .. } ==> (event matches ScanEvent::Handle(h)
            ==> r == on_handle(es, index, h)),
        // Pawn list entry: must be valid; the pawn sits in the slot the handle names.
        state matches ScanState::PawnListEntry { es, index, handle, .. } ==> (
        event matches ScanEvent::Word(ple) ==> r == on_pawn_list_entry(es, index, handle, ple)),
        // Pawn: valid, not the local pawn, with a valid health address.
        state matches ScanState::Pawn { es, index, handle, .. } ==> (event matches ScanEvent::Word(p)
            ==> r == on_pawn(*schema, local_pawn, es, index, handle, p)),
        // Health read: the team address must be valid.
        state matches ScanState::Health { es, index, handle, pawn, .. } ==> (
        event matches ScanEvent::Int(hp) ==> r == on_health(*schema, es, index, handle, pawn, hp)),
        // Team read: a drawable enemy with a valid origin address goes on.
        state matches ScanState::Team { es, index, handle, pawn, health, .. } ==> (
        event matches ScanEvent::Int(t) ==> r == on_team(
            *schema,
            local_pawn,
            my_team,
            es,
            index,
            handle,
            pawn,
            health,
            t,
        )),
        // Origin read: the local origin is found through the local pawn
        // pointer when its address is valid, else taken as zero.
        state matches ScanState::Origin { es, index, health, .. } ==> (
        event matches ScanEvent::OriginRead ==> r == on_origin(base, *sdk, es, index, health)),
        // Local pawn read: the local origin sits at the origin offset from it.
        state matches ScanState::LocalPawn { es, index, health, .. } ==> (
        event matches ScanEvent::Word(lp) ==> r == on_local_pawn(*schema, es, index, health, lp)),
        // Local origin read: the entity is drawn.
        state matches ScanState::LocalOrigin { es, index, health, .. } ==> (
        event matches ScanEvent::OriginRead ==> r == (
            ScanState::Draw { es, index, health },
            ScanAction::DrawEnemy { health },
        )),
        // Drawn: on to the next controller.
        state matches ScanState::Draw { es, index, .. } ==> (event matches ScanEvent::Drawn ==> r
            == scan_from(es, index + 1)),
        // Any other event: the pending read is asked again.
        !scan_answers(state, event) ==> r == (state, scan_pending(state)),
        // The scan never goes back to an earlier controller, moves past the
        // controller it has drawn, and examines only indices in `1..SCAN_END`.
        scan_position(state) < SCAN_END ==> scan_position(state) <= scan_position(r.0),
        state is Draw && event is Drawn && scan_position(state) < SCAN_END ==> scan_position(state)
            < scan_position(r.0),
        scan_in_range(state) ==> scan_in_range(r.0),
{
    match state {
        ScanState::Done => (ScanState::Done, ScanAction::Finish),
        ScanState::EntitySystem { addr } => match event {
            ScanEvent::Word(es) => if crate::is_valid(es) {
                scan_from_exec(es, 1)
            } else {
                (ScanState::Done, ScanAction::Finish)
            },
            _ => (state, ScanAction::ReadWord { addr }),
        },
        ScanState::ListEntry { es, index, addr } => match event {
            ScanEvent::Word(le) => {
                if crate::is_valid(le) {
                    match entry_address(le, index) {
                        Some(a) => {
                            return (ScanState::Controller { es, index, addr: a }, ScanAction::ReadWord { addr: a });
                        },
                        None => {},
                    }
                }
                scan_next(es, index)
            },
            _ => (state, ScanAction::ReadWord { addr }),
        },
        ScanState::Controller { es, index, addr } => match event {
            ScanEvent::Word(c) => {
                if crate::is_valid(c) {
                    match c.checked_add(m_h_player_pawn(schema)) {
                        Some(a) => {
                            return (ScanState::Handle { es, index, addr: a }, ScanAction::ReadHandle { addr: a });
                        },
                        None => {},
                    }
                }
                scan_next(es, index)
            },
            _ => (state, ScanAction::ReadWord { addr }),
        },
        ScanState::Handle { es, index, addr } => match event {
            ScanEvent::Handle(h) => {
                if h != 0 && h != 0xFFFF_FFFF {
                    match pawn_slot(es, h) {
                        Some(a) => {
                            return (ScanState::PawnListEntry { es, index, handle: h, addr: a }, ScanAction::ReadWord { addr: a });
                        },
                        None => {},
                    }
                }
                scan_next(es, index)
            },
            _ => (state, ScanAction::ReadHandle { addr }),
        },
        ScanState::PawnListEntry { es, index, handle, addr } => match event {
            ScanEvent::Word(ple) => {
                if crate::is_valid(ple) {
                    match entry_address(ple, handle as usize) {
                        Some(a) => {
                            return (ScanState::Pawn { es, index, handle, addr: a }, ScanAction::ReadWord { addr: a });
                        },
                        None => {},
                    }
                }
                scan_next(es, index)
            },
            _ => (state, ScanAction::ReadWord { addr }),
        },
        ScanState::Pawn { es, index, handle, addr } => match event {
            ScanEvent::Word(p) => {
                if crate::is_valid(p) && p != local_pawn {
                    match checked_valid_addr(p, m_i_health(schema)) {
                        Some(a) => {
                            return (ScanState::Health { es, index, handle, pawn: p, addr: a }, ScanAction::ReadInt { addr: a });
                        },
                        None => {},
                    }
                }
                scan_next(es, index)
            },
            _ => (state, ScanAction::ReadWord { addr }),
        },
        ScanState::Health { es, index, handle, pawn, addr } => match event {
            ScanEvent::Int(hp) => match checked_valid_addr(pawn, m_i_team_num(schema)) {
                Some(a) => (ScanState::Team { es, index, handle, pawn, health: hp, addr: a }, ScanAction::ReadInt { addr: a }),
                None => scan_next(es, index),
            },
            _ => (state, ScanAction::ReadInt { addr }),
        },
        ScanState::Team { es, index, handle, pawn, health, addr } => match event {
            ScanEvent::Int(t) => {
                if is_drawable_enemy(pawn, local_pawn, handle, health, t, my_team) {
                    match checked_valid_addr(pawn, m_v_old_origin(schema)) {
                        Some(a) => {
                            return (ScanState::Origin { es, index, health, addr: a }, ScanAction::ReadOrigin { addr: a });
                        },
                        None => {},
                    }
                }
                scan_next(es, index)
            },
            _ => (state, ScanAction::ReadInt { addr }),
        },
        ScanState::Origin { es, index, health, addr } => match event {
            ScanEvent::OriginRead => match checked_valid_addr(base, dw_local_player_pawn(sdk)) {
                Some(a) => (ScanState::LocalPawn { es, index, health, addr: a }, ScanAction::ReadWord { addr: a }),
                None => (ScanState::Draw { es, index, health }, ScanAction::DrawEnemy { health }),
            },
            _ => (state, ScanAction::ReadOrigin { addr }),
        },
        ScanState::LocalPawn { es, index, health, addr } => match event {
            ScanEvent::Word(lp) => match lp.checked_add(m_v_old_origin(schema)) {
                Some(a) => (ScanState::LocalOrigin { es, index, health, addr: a }, ScanAction::ReadLocalOrigin { addr: a }),
                None => (ScanState::Draw { es, index, health }, ScanAction::DrawEnemy { health }),
            },
            _ => (state, ScanAction::ReadWord { addr }),
        },
        ScanState::LocalOrigin { es, index, health, addr } => match event {
            ScanEvent::OriginRead => (ScanState::Draw { es, index, health }, ScanAction::DrawEnemy { health }),
            _ => (state, ScanAction::ReadLocalOrigin { addr }),
        },
        ScanState::Draw { es, index, health } => match event {
            ScanEvent::Drawn => scan_next(es, index),
            _ => (state, ScanAction::DrawEnemy { health }),
        },
    }
}

} // verus!
