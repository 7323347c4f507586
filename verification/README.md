# gyeol

결 (*gyeol*) — a small native UI toolkit, split into a verified core and a shell.

- `src/` is the verified library (Verus). It holds the toolkit's decisions over plain values:
  - `element` — element ids (the default hash of a name), layout enums, overflow rules;
  - `event` — modifiers, keys, IME events, which key-press text is typed;
  - `layout` — hit-testing over the painted element tree: frontmost element, click target,
    cursor, hovered chain;
  - `view` — the pointer state machine: clicks need press and release on one element, captured
    presses get drags and their release;
  - `atlas` — shelf packing of glyph bitmaps into the glyph texture (areas never overlap);
  - `gpu` — growth of per-frame GPU buffers;
  - `renderer` — batching a frame's items into draw calls, scissor rectangles;
  - `list` — which rows of a long list to build;
  - `shaper` — caret placement and click hit-testing inside a shaped line;
  - `shell` — multi-click counting and redraw wake-ups;
  - `scene`, `error` — hex colors, error messages.
- `app/` is ordinary Rust around it: winit windowing, wgpu rendering, cosmic-text shaping, taffy
  flexbox layout, float geometry, the element builder API and a headless test host.
- `tests/` exercises the library on concrete values.
