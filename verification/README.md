# forma

The verified core of fōrma, an audio-visual toy that plays step sequences
and draws scenes that react to the sound.

- `src/` — the library, verified with Verus:
  - `audio`: the shared sample clock, the step sequencer's beat and step
    logic, the ADSR envelope's stage machine, the generator's control
    messages, and the encoding of notes in song files (with clearing, saving
    and loading of the notes of a song);
  - `basics`: clamping, index buffers of the procedural meshes (sphere,
    cylinder, circles), the demo level's grid, and the resolution and
    grouping of scene-file objects by mesh and material;
  - `cpu_ray_tracer`, `cpu_path_tracer`: scene descriptions in fixed point,
    key-mask decoding, and the joining of pixel bands rendered in parallel;
  - `frontend`: building the key mask from held keys;
  - `gui`: interface settings and the post-process list's reordering and
    palette stepping.
- `app/` — the command-line front end: song files (serde), scene files,
  mesh vertices, and floating-point rendering helpers.
- `tests/` — tests of the library on concrete values.
