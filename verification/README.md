# ggez_graphics

The graphics state of a 2D game framework, verified with Verus.

- `src/backend.rs`: the OpenGL backend description, its conversion from the
  configured backend, its default shaders and the driver description.
- `src/conf.rs`: the window mode.
- `src/graphics.rs`: the graphics state (`Context`) and its operations: screen
  coordinates, projection, the model-view transform stack, the default filter,
  the blend mode, the window mode, renderer information and drawing; and the
  laws that relate them.
- `src/sampler.rs`: sampler descriptions and the sampler cache.
- `src/text.rs`: decimal and version text.
- `src/types.rs`: rectangles, draw parameters, matrices and other plain values.
- `app/`: what computes with `f32` or talks to the GPU, on top of the library.

Floating-point values are stored as their IEEE-754 bit patterns: the library
carries them and gives them back bit for bit, and `app/` does the arithmetic.
