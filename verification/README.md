# Verified core of a module-scanning overlay

The library holds the pure logic of the overlay, each function carrying a
machine-checked contract:

- `overlay`: the decisions of the main loop (`overlay_step`), as a step from
  state and event to the next state and the action for the caller, and the
  wait for the client module (`client_module_poll`).
- `features::visuals`: the integer side of the entity scan: list-entry and
  slot addresses (`controller_slot`, `pawn_slot`, `entry_address`), the
  drawing rule (`is_drawable_enemy`), and the scan itself as a step function
  (`esp_start`, `esp_step`).
- `security`: the FNV-1a hash by which export names are keyed (`hash_api`),
  the export-table lookup over a module image (`ApiResolver::resolve`), the
  always-true guard `opaque_predicate`, and the offset getters that read the
  generated offset tables (`encrypted_offsets`, `encrypted_schemas`).
- `sdk`: the offset tables themselves, filled in by the caller for the running
  game build.
- `utils`: the address-window check `is_valid_ptr` and the always-true
  `opaque_branch_condition`.
- `is_valid` (crate root): the address check applied before a pointer is
  followed.

The caller performs every memory read, wait and drawing step that these
functions ask for. Tests under `tests/` exercise every public function on
concrete values.
