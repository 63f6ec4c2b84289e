# borge_equipment_rental

The rules of an equipment-rental back office (rate tiers, quote revisions and
their locking, compliance terms, password hashing, signed session tokens,
module entitlements and the guarded IPC boundary), written in Verus with their
contracts proved.

- `src/` — the verified library. Each module states its rules as spec
  functions and proves its executable functions against them; the calls into
  outside crates (hex, base64, HMAC-SHA256, PBKDF2, randomness, `Path::join`)
  sit behind small trusted wrappers in `src/codec.rs` and `src/db.rs`.
- `tests/` — tests of the library on concrete values.
- `app/` — the desktop shell: Tauri commands, the SQLite store, JSON
  (de)serialisation, the dev seed and the asset lookup commands. It calls the
  library for every decision and does the I/O around it.
