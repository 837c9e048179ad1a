# radiant

The show model of a lighting console, verified with Verus.

- `src/` is the library: GDTF attribute names (`attr`), the patch and its DMX
  channels (`patch`), show objects and their container (`object`), cues and
  sequences (`sequence`, `cue`), the programmer and keyed values
  (`programmer`, `values`), the command language and its builder (`command`,
  `cmd`), the engine that executes commands (`engine`, `console`, `event`),
  effects and their scheduling (`effect`, `pool`), the output pipeline
  (`pipeline`), the DMX values it writes (`multiverse`) and the decisions
  of each processing frame (`processor`).
  Properties that relate several operations are proved in `laws` and
  `attr_laws`.
- `app/` is the program around it: command-line arguments, logging, reading
  the showfile folder, and the frame loop that blends fades (floating point)
  and scales resolved values (floating point) for the multiverse.
- `tests/` exercises the library on concrete shows.
