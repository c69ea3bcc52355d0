# badpiggies_editor

The data and rules behind a level and save editor for Bad Piggies, as a
library whose behaviour is stated in `requires`/`ensures` contracts and
proved with Verus.

## Layout

- `src/` — the verified library.
  - `text.rs`, `number.rs`, `order.rs`: the character-sequence model of text
    and the scanning, number and ordering primitives the parsers use.
  - `crypto.rs`: save file encryption and decryption (PBKDF2-HMAC-SHA1 key
    derivation, AES-256-CBC, SHA-1 prefix), over the RustCrypto crates.
  - `save_viewer.rs`, `filter.rs`, `tree.rs`: the save viewer's loaded file
    and its undo/redo history, line offsets, contraption part layers, entry
    filter, and the object tree's click selection.
  - `data/`: Unity asset packages and the tables built from them — asset
    lookups by pathname and GUID, terrain textures, background themes and
    prefab rules, background prefabs and overrides, level names, runtime
    assets, sprite and icon metadata, prefab multi-sprite layer rules, goal
    animation state.
  - `diagnostics/`: the editor's error type.
- `tests/`: tests of the library.
- `app/`: a command-line front end (file and directory I/O, and the
  floating-point figures the library keeps as text).
