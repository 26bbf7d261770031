# iced_layer

A Wayland layer-shell surface that hosts a small iced counter program.

- `src/` is the verified library (Verus): the counter (`counter`), the
  translation of keysyms and pointer frames into program events
  (`input::keyboard`, `input::pointer`), and the surface's input state
  machine with its choice of render format and its timer
  (`sctk::layer_surface`). Each decision is a function from plain values to
  plain values with a contract, and the laws that hold across calls are
  proof functions beside them.
- `app/` is the program around it: Wayland connection and event loop
  (smithay-client-toolkit), wgpu rendering and the iced runtime. Its
  handlers turn compositor events into the library's types, ask the library
  what to do, and carry out the answer.
- `tests/` runs the library on concrete inputs, including a check of the
  keysym table against the `xkeysym` constants.
