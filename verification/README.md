# Render engine core, verified

The data structures and conversions of a shape render engine, written in Verus:
property keys and bags (a red-black tree with a proved balance bound), properties,
colours, pens, brushes and their render-side forms, effects, render and shape paths,
path flattening, path lists, and the integer core of a pixel-comparison harness.

Layout:

- `src/` — the verified library. Floating-point values are carried as the bit
  patterns of their `f32` values wherever the library only stores or moves them.
- `tests/` — tests run against the compiled library.
- `app/` — ordinary Rust around the library: the process-wide engine instance, and
  everything that computes with floating point (scores, luminance, clamping of effect
  settings, HSL conversion, rectangle corners, transforms, bounds, scaling).
