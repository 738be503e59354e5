# rustcraft

The game logic of a Minecraft 1.8.9 (protocol 47) client, written in Verus
so that its behaviour is stated in contracts and proved.

## Layout

- `src/` — the verified library.
  - `inventory.rs`: item stacks, the player inventory, open container
    windows, clicks, shift-clicks, drops, window packets, the creative
    inventory and enchantment lookups; proofs that clicks and merges
    conserve items.
  - `nbt.rs`: well-formedness and lookups in item NBT bytes.
  - `book.rs`: book and quill editing and the book NBT payload, with the
    proof that a saved book reopens with the same pages.
  - `network.rs`: inbound packet scheduling across frames, with proofs that
    world data keeps its order and joins/respawns never overtake it.
  - `keybind.rs`, `gamepad.rs`: actions, key/mouse/gamepad bindings, the
    controls screen rows, gamepad input edges and the per-tick input state.
  - `placement.rs`, `interaction.rs`: block placement predictions, item use
    planning, tool wear, dig continuity and click packets.
  - `armor.rs`, `config.rs`, `menu.rs`, `script.rs`, `skin.rs`,
    `entity.rs`, `block.rs`, `text.rs`, `slot.rs`, `bytes.rs`: smaller
    tables and helpers.
  - `resource_pack.rs`: a pack's icon from its `pack.png` bytes (decoded
    by the `image` crate) and its description and format from its
    `pack.mcmeta` text (parsed by `serde_json`).
- `tests/` — tests run against the compiled library.
- `app/` — what stays outside the proofs: the options file (serde),
  resource pack scanning (the folder and zip reads), the floating-point
  controls and the floating-point dig progress.
