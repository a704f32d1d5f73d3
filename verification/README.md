# tetanes

The open-ROM view and key handling of an NES emulator, verified with Verus.

- `src/` is the verified library: the view's state machine (moving the
  highlight, switching tabs, opening entries, loading directory listings), the
  drawing of the view as a list of drawing operations, its default key
  bindings, and the emulator's key handlers. `src/laws.rs` holds the properties
  proved of them.
- `app/` runs the view with pix-engine: it reads directories, pictures and the
  clock, carries out the drawing operations, and hands the results back.
- `tests/` runs the library on concrete inputs.
