# andromeda

The verified core of a terrain editor, written in Verus.

`src/` is the library that Verus checks:

- `inject` — a registry of type-erased objects keyed by their type, and the
  shared dependency-injection container around it.
- `assets` — typed handles, the per-type asset container (pending, failed and
  ready assets, keyed by slot-map keys), CPU image buffers and pixel types, the
  topology of the terrain mesh, and flipping image rows.
- `input` — the last reported state of every mouse button and key.
- `camera` — whether the camera controller reacts, and which motion an input
  event asks for.
- `targets` — output and render resolutions and the render targets that follow
  them.
- `gui` — the toolbar's choice of tool and the brush widget's reaction to drags.
- `driver` — what the application does with a window event.
- `events`, `brush`, `hot_reload` — small shared types.

`app/` is ordinary Rust around the library: the asset store with its loader
threads, the input system with the mouse position, and the floating-point
camera, terrain and height-map code.

`tests/` holds the tests; they run against the compiled library.
