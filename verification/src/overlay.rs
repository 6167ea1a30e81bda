//! The decisions of the overlay's main loop, as a step from state and event
//! to the next state and the action for the caller, which does the waiting,
//! the memory reads and the drawing.
use vstd::prelude::*;

use crate::accepted_address;
use crate::sdk::{ClientDllOffsets, SchemaOffsets};
use crate::security::encrypted_offsets::{dw_local_player_pawn, dw_view_matrix};
use crate::security::encrypted_schemas::m_i_team_num;
use crate::utils::common::{lemma_offset_addr_is_sum, offset_addr, valid_offset_addr};

verus! {

/// Virtual-key code of the key that ends the overlay (End).
pub const EXIT_KEY: i32 = 0x23;

/// Milliseconds to wait before trying again when the game state is not ready.
pub const RETRY_DELAY_MS: u64 = 10;

/// Milliseconds to wait between two frames.
pub const FRAME_DELAY_MS: u64 = 1;

/// Milliseconds to wait between two looks for `client.dll`.
pub const MODULE_POLL_MS: u64 = 200;

/// What a look for `client.dll` decides.
#[derive(Clone, Copy, Debug, PartialEq, Eq)]
pub enum ModulePoll {
    /// The module is loaded at `base`.
    Found { base: usize },
    /// Not loaded yet: wait `ms` milliseconds and look again.
    Sleep { ms: u64 },
}

/// Decides on the handle that the lookup of `client.dll` returned: a
/// non-zero handle is the module's base; a zero handle means waiting
/// `MODULE_POLL_MS` and looking again.
pub fn client_module_poll(handle: usize) -> (r: ModulePoll)
    ensures
        r == (if handle != 0 {
            ModulePoll::Found { base: handle }
        } else {
            ModulePoll::Sleep { ms: MODULE_POLL_MS }
        }),
{
    if handle != 0 {
        ModulePoll::Found { base: handle }
    } else {
        ModulePoll::Sleep { ms: MODULE_POLL_MS }
    }
}

/// Where a frame of the main loop stands.
#[derive(Clone, Copy, Debug, PartialEq, Eq)]
pub enum OverlayState {
    /// Between frames: the caller polls the exit key and answers `KeyState`.
    Idle,
    /// Waits for the local pawn pointer read at `addr`.
    AwaitLocalPawn { addr: usize },
    /// Waits for the local team read at `addr`.
    AwaitTeam { local_pawn: usize, addr: usize },
    /// Waits for the view matrix read at `addr`.
    AwaitViewMatrix { local_pawn: usize, my_team: i32, addr: usize },
    /// Waits for the entity scan and the hand-over of its draw list.
    Scanning { local_pawn: usize, my_team: i32 },
    /// The exit key was pressed.
    Finished,
}

/// What the caller answers.
#[derive(Clone, Copy, Debug, PartialEq, Eq)]
pub enum OverlayEvent {
    /// The state of the key `EXIT_KEY`, as the key-state query returned it.
    KeyState(i16),
    /// The local pawn pointer.
    LocalPawn(usize),
    /// The local player's team.
    Team(i32),
    /// The view matrix has been read.
    ViewMatrixRead,
    /// The scan ran and its draw list was handed to the renderer.
    ScanDone,
}

/// What the main loop asks of the caller next.
#[derive(Clone, Copy, Debug, PartialEq, Eq)]
pub enum OverlayAction {
    /// Read the local pawn pointer at `addr`; answer `LocalPawn`.
    ReadLocalPawn { addr: usize },
    /// Read the local team at `addr`; answer `Team`.
    ReadTeam { addr: usize },
    /// Read the view matrix at `addr`; answer `ViewMatrixRead`.
    ReadViewMatrix { addr: usize },
    /// Scan the entities with this local pawn and team, using the view matrix
    /// read in this frame (all zero when none was read), hand the draw list to
    /// the renderer, then answer `ScanDone`.
    ScanEntities { local_pawn: usize, my_team: i32 },
    /// Wait `ms` milliseconds, then poll the exit key and answer `KeyState`.
    Sleep { ms: u64 },
    /// Leave the loop: clear the draw list and unload.
    Exit,
}

/// After the team is known: the view matrix offset must be set; the matrix is
/// read when its address passes `is_valid`, else the scan runs on a zero
/// matrix.
pub open spec fn after_team(
    base: usize,
    sdk: ClientDllOffsets,
    local_pawn: usize,
    my_team: i32,
) -> (OverlayState, OverlayAction) {
    if sdk.dw_view_matrix == 0 {
        (OverlayState::Idle, OverlayAction::Sleep { ms: RETRY_DELAY_MS })
    } else {
        match offset_addr(base, sdk.dw_view_matrix as int) {
            Some(a) => if accepted_address(a) {
                (
                    OverlayState::AwaitViewMatrix { local_pawn, my_team, addr: a },
                    OverlayAction::ReadViewMatrix { addr: a },
                )
            } else {
                (
                    OverlayState::Scanning { local_pawn, my_team },
                    OverlayAction::ScanEntities { local_pawn, my_team },
                )
            },
            None => (
                OverlayState::Scanning { local_pawn, my_team },
                OverlayAction::ScanEntities { local_pawn, my_team },
            ),
        }
    }
}

/// After the local pawn is known: it must pass `is_valid`; the team is read
/// when the team offset is set and the team address passes `is_valid`, else
/// it is 0.
pub open spec fn after_local_pawn(
    base: usize,
    sdk: ClientDllOffsets,
    schema: SchemaOffsets,
    local_pawn: usize,
) -> (OverlayState, OverlayAction) {
    if !accepted_address(local_pawn) {
        (OverlayState::Idle, OverlayAction::Sleep { ms: RETRY_DELAY_MS })
    } else if schema.m_i_team_num != 0 && valid_offset_addr(local_pawn, schema.m_i_team_num as int) is Some {
        let a: usize = valid_offset_addr(local_pawn, schema.m_i_team_num as int)->0;
        (OverlayState::AwaitTeam { local_pawn, addr: a }, OverlayAction::ReadTeam { addr: a })
    } else {
        after_team(base, sdk, local_pawn, 0)
    }
}

/// On the exit-key state: bit 0 set ends the loop; otherwise the local pawn
/// offset must be set, and the pointer is read when its address passes
/// `is_valid` (else the pawn counts as 0, which fails the check).
pub open spec fn on_key_state(base: usize, sdk: ClientDllOffsets, key: i16) -> (
    OverlayState,
    OverlayAction,
) {
    if key & 1 != 0 {
        (OverlayState::Finished, OverlayAction::Exit)
    } else if sdk.dw_local_player_pawn == 0 {
        (OverlayState::Idle, OverlayAction::Sleep { ms: RETRY_DELAY_MS })
    } else {
        match offset_addr(base, sdk.dw_local_player_pawn as int) {
            Some(a) => if accepted_address(a) {
                (OverlayState::AwaitLocalPawn { addr: a }, OverlayAction::ReadLocalPawn { addr: a })
            } else {
                (OverlayState::Idle, OverlayAction::Sleep { ms: RETRY_DELAY_MS })
            },
            None => (OverlayState::Idle, OverlayAction::Sleep { ms: RETRY_DELAY_MS }),
        }
    }
}

/// At the start of a frame: a key state with bit 0 set exits; otherwise the
/// address asked for is exactly `base + dw_local_player_pawn` as a plain sum,
/// asked for whenever the offset is set, the sum fits and passes the address
/// check.
pub proof fn lemma_local_pawn_address(base: usize, sdk: ClientDllOffsets, key: i16)
    ensures
        key & 1 != 0 ==> on_key_state(base, sdk, key) == (OverlayState::Finished, OverlayAction::Exit),
        on_key_state(base, sdk, key).1 matches OverlayAction::ReadLocalPawn { addr } ==> (addr as int
            == base + sdk.dw_local_player_pawn && sdk.dw_local_player_pawn != 0 && key & 1 == 0),
        (key & 1 == 0 && sdk.dw_local_player_pawn != 0 && base + sdk.dw_local_player_pawn
            <= usize::MAX && accepted_address((base + sdk.dw_local_player_pawn) as usize))
            ==> on_key_state(base, sdk, key) == (
            OverlayState::AwaitLocalPawn { addr: (base + sdk.dw_local_player_pawn) as usize },
            OverlayAction::ReadLocalPawn { addr: (base + sdk.dw_local_player_pawn) as usize },
        ),
{
}

/// The team is read at `local_pawn + m_i_team_num` and only when that offset
/// is set; the view matrix at `base + dw_view_matrix`; the scan runs with the
/// local pawn and the team it was given (0 when the team was not read).
pub proof fn lemma_team_and_matrix_addresses(
    base: usize,
    sdk: ClientDllOffsets,
    schema: SchemaOffsets,
    local_pawn: usize,
    my_team: i32,
)
    ensures
        after_local_pawn(base, sdk, schema, local_pawn).1 matches OverlayAction::ReadTeam { addr }
            ==> (addr as int == local_pawn + schema.m_i_team_num && schema.m_i_team_num != 0),
        after_local_pawn(base, sdk, schema, local_pawn).1 matches OverlayAction::ScanEntities {
            local_pawn: lp,
            my_team: t,
        } ==> (lp == local_pawn && t == 0),
        after_team(base, sdk, local_pawn, my_team).1 matches OverlayAction::ReadViewMatrix { addr }
            ==> addr as int == base + sdk.dw_view_matrix,
        after_team(base, sdk, local_pawn, my_team).1 matches OverlayAction::ScanEntities {
            local_pawn: lp,
            my_team: t,
        } ==> (lp == local_pawn && t == my_team),
{
}

/// The frame's decisions in plain arithmetic. With the exit key up: a zero
/// local-pawn offset, or a local-pawn address `base + offset` that does not
/// fit or fails the address check, means waiting 10 ms. An invalid local pawn
/// means waiting 10 ms; a valid one has its team read at
/// `local_pawn + m_i_team_num` when that offset is set and the address is
/// valid, and otherwise goes on with team 0. A zero view-matrix offset means
/// waiting 10 ms; otherwise the matrix is read at `base + dw_view_matrix` when
/// that address is valid, and the scan runs on a zero matrix when it is not.
pub proof fn lemma_frame_decisions(
    base: usize,
    sdk: ClientDllOffsets,
    schema: SchemaOffsets,
    key: i16,
    local_pawn: usize,
    my_team: i32,
)
    ensures
        (key & 1 == 0 && sdk.dw_local_player_pawn == 0) ==> on_key_state(base, sdk, key) == (
            OverlayState::Idle,
            OverlayAction::Sleep { ms: 10 },
        ),
        (key & 1 == 0 && !(base + sdk.dw_local_player_pawn <= usize::MAX && accepted_address(
            (base + sdk.dw_local_player_pawn) as usize,
        ))) ==> on_key_state(base, sdk, key) == (OverlayState::Idle, OverlayAction::Sleep { ms: 10 }),
        !accepted_address(local_pawn) ==> after_local_pawn(base, sdk, schema, local_pawn) == (
            OverlayState::Idle,
            OverlayAction::Sleep { ms: 10 },
        ),
        (accepted_address(local_pawn) && schema.m_i_team_num != 0 && local_pawn
            + schema.m_i_team_num <= usize::MAX && accepted_address(
            (local_pawn + schema.m_i_team_num) as usize,
        )) ==> after_local_pawn(base, sdk, schema, local_pawn) == (
            OverlayState::AwaitTeam {
                local_pawn,
                addr: (local_pawn + schema.m_i_team_num) as usize,
            },
            OverlayAction::ReadTeam { addr: (local_pawn + schema.m_i_team_num) as usize },
        ),
        (accepted_address(local_pawn) && !(schema.m_i_team_num != 0 && local_pawn
            + schema.m_i_team_num <= usize::MAX && accepted_address(
            (local_pawn + schema.m_i_team_num) as usize,
        ))) ==> after_local_pawn(base, sdk, schema, local_pawn) == after_team(
            base,
            sdk,
            local_pawn,
            0,
        ),
        sdk.dw_view_matrix == 0 ==> after_team(base, sdk, local_pawn, my_team) == (
            OverlayState::Idle,
            OverlayAction::Sleep { ms: 10 },
        ),
        (sdk.dw_view_matrix != 0 && base + sdk.dw_view_matrix <= usize::MAX && accepted_address(
            (base + sdk.dw_view_matrix) as usize,
        )) ==> after_team(base, sdk, local_pawn, my_team) == (
            OverlayState::AwaitViewMatrix {
                local_pawn,
                my_team,
                addr: (base + sdk.dw_view_matrix) as usize,
            },
            OverlayAction::ReadViewMatrix { addr: (base + sdk.dw_view_matrix) as usize },
        ),
        (sdk.dw_view_matrix != 0 && !(base + sdk.dw_view_matrix <= usize::MAX && accepted_address(
            (base + sdk.dw_view_matrix) as usize,
        ))) ==> after_team(base, sdk, local_pawn, my_team) == (
            OverlayState::Scanning { local_pawn, my_team },
            OverlayAction::ScanEntities { local_pawn, my_team },
        ),
{
    lemma_offset_addr_is_sum(base, sdk.dw_local_player_pawn as int);
    lemma_offset_addr_is_sum(local_pawn, schema.m_i_team_num as int);
    lemma_offset_addr_is_sum(base, sdk.dw_view_matrix as int);
}

/// The action that a state waits on, asked again.
pub open spec fn overlay_pending(state: OverlayState) -> OverlayAction {
    match state {
        OverlayState::Idle => OverlayAction::Sleep { ms: FRAME_DELAY_MS },
        OverlayState::AwaitLocalPawn { addr } => OverlayAction::ReadLocalPawn { addr },
        OverlayState::AwaitTeam { addr, .. } => OverlayAction::ReadTeam { addr },
        OverlayState::AwaitViewMatrix { addr, .. } => OverlayAction::ReadViewMatrix { addr },
        OverlayState::Scanning { local_pawn, my_team } => OverlayAction::ScanEntities {
            local_pawn,
            my_team,
        },
        OverlayState::Finished => OverlayAction::Exit,
    }
}

/// Whether `event` answers what `state` waits on.
pub open spec fn overlay_answers(state: OverlayState, event: OverlayEvent) -> bool {
    match state {
        OverlayState::Idle => event is KeyState,
        OverlayState::AwaitLocalPawn { .. } => event is LocalPawn,
        OverlayState::AwaitTeam { .. } => event is Team,
        OverlayState::AwaitViewMatrix { .. } => event is ViewMatrixRead,
        OverlayState::Scanning { .. } => event is ScanDone,
        OverlayState::Finished => true,
    }
}

fn after_team_exec(base: usize, sdk: &ClientDllOffsets, local_pawn: usize, my_team: i32) -> (r: (
    OverlayState,
    OverlayAction,
))
    ensures
        r == after_team(base, *sdk, local_pawn, my_team),
{
    let matrix_off: usize = dw_view_matrix(sdk);
    if matrix_off == 0 {
        return (OverlayState::Idle, OverlayAction::Sleep { ms: RETRY_DELAY_MS });
    }
    match base.checked_add(matrix_off) {
        Some(a) => {
            if crate::is_valid(a) {
                return (
                    OverlayState::AwaitViewMatrix { local_pawn, my_team, addr: a },
                    OverlayAction::ReadViewMatrix { addr: a },
                );
            }
        },
        None => {},
    }
    (OverlayState::Scanning { local_pawn, my_team }, OverlayAction::ScanEntities { local_pawn, my_team })
}

/// One step of the overlay's main loop. Each frame: the exit key (bit 0 of
/// its state) ends the loop; a zero local-pawn or view-matrix offset, or a
/// local pawn that fails `is_valid`, means waiting `RETRY_DELAY_MS` and
/// starting the frame again; the local pawn is read only from an address that
/// passes `is_valid` (else it is 0); the team is read when its offset is set
/// and its address passes `is_valid` (else it is 0); the view matrix is read
/// when its address passes `is_valid` (else it is zero); then the entities
/// are scanned, and after the scan the loop waits `FRAME_DELAY_MS`. Every
/// address is a checked `usize` sum; a sum that does not fit counts as an
/// address that fails `is_valid`. An event that does not answer what the state
/// waits on leaves the state as it is and asks for the same action again.
pub fn overlay_step(
    base: usize,
    sdk: &ClientDllOffsets,
    schema: &SchemaOffsets,
    state: OverlayState,
    event: OverlayEvent,
) -> (r: (OverlayState, OverlayAction))
    ensures
        // Once the exit key was seen, the loop stays left.
        state is Finished ==> r == (OverlayState::Finished, OverlayAction::Exit),
        // Start of a frame: exit key, then the local pawn offset and address.
        state is Idle ==> (event matches OverlayEvent::KeyState(k) ==> r == on_key_state(
            base,
            *sdk,
            k,
        )),
        // The local pawn is known: it must be valid; the team is read or 0.
        state is AwaitLocalPawn ==> (event matches OverlayEvent::LocalPawn(lp) ==> r
            == after_local_pawn(base, *sdk, *schema, lp)),
        // The team is known: the view matrix offset and address come next.
        state matches OverlayState::AwaitTeam { local_pawn, .. } ==> (event matches OverlayEvent::Team(
            t,
        ) ==> r == after_team(base, *sdk, local_pawn, t)),
        // The view matrix is read: the entities are scanned.
        state matches OverlayState::AwaitViewMatrix { local_pawn, my_team, .. } ==> (event is ViewMatrixRead
            ==> r == (
            OverlayState::Scanning { local_pawn, my_team },
            OverlayAction::ScanEntities { local_pawn, my_team },
        )),
        // The scan is done: wait for the next frame.
        state is Scanning ==> (event is ScanDone ==> r == (
            OverlayState::Idle,
            OverlayAction::Sleep { ms: FRAME_DELAY_MS },
        )),
        // Any other event: the same action is asked again.
        !overlay_answers(state, event) ==> r == (state, overlay_pending(state)),
{
    match state {
        OverlayState::Finished => (OverlayState::Finished, OverlayAction::Exit),
        OverlayState::Idle => match event {
            OverlayEvent::KeyState(k) => {
                let exit_key_pressed: bool = k & 1 != 0;
                if exit_key_pressed && crate::security::opaque_predicate() {
                    return (OverlayState::Finished, OverlayAction::Exit);
                }
                let off: usize = dw_local_player_pawn(sdk);
                if off == 0 {
                    return (OverlayState::Idle, OverlayAction::Sleep { ms: RETRY_DELAY_MS });
                }
                match base.checked_add(off) {
                    Some(a) => {
                        if crate::is_valid(a) {
                            return (
                                OverlayState::AwaitLocalPawn { addr: a },
                                OverlayAction::ReadLocalPawn { addr: a },
                            );
                        }
                    },
                    None => {},
                }
                (OverlayState::Idle, OverlayAction::Sleep { ms: RETRY_DELAY_MS })
            },
            _ => (state, OverlayAction::Sleep { ms: FRAME_DELAY_MS }),
        },
        OverlayState::AwaitLocalPawn { addr } => match event {
            OverlayEvent::LocalPawn(lp) => {
                if !crate::is_valid(lp) {
                    return (OverlayState::Idle, OverlayAction::Sleep { ms: RETRY_DELAY_MS });
                }
                let team_off: usize = m_i_team_num(schema);
                if team_off != 0 {
                    match lp.checked_add(team_off) {
                        Some(a) => {
                            if crate::is_valid(a) {
                                return (
                                    OverlayState::AwaitTeam { local_pawn: lp, addr: a },
                                    OverlayAction::ReadTeam { addr: a },
                                );
                            }
                        },
                        None => {},
                    }
                }
                after_team_exec(base, sdk, lp, 0)
            },
            _ => (state, OverlayAction::ReadLocalPawn { addr }),
        },
        OverlayState::AwaitTeam { local_pawn, addr } => match event {
            OverlayEvent::Team(t) => after_team_exec(base, sdk, local_pawn, t),
            _ => (state, OverlayAction::ReadTeam { addr }),
        },
        OverlayState::AwaitViewMatrix { local_pawn, my_team, addr } => match event {
            OverlayEvent::ViewMatrixRead => (
                OverlayState::Scanning { local_pawn, my_team },
                OverlayAction::ScanEntities { local_pawn, my_team },
            ),
            _ => (state, OverlayAction::ReadViewMatrix { addr }),
        },
        OverlayState::Scanning { local_pawn, my_team } => match event {
            OverlayEvent::ScanDone => (OverlayState::Idle, OverlayAction::Sleep { ms: FRAME_DELAY_MS }),
            _ => (state, OverlayAction::ScanEntities { local_pawn, my_team }),
        },
    }
}

} // verus!
