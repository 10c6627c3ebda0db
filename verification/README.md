# benilla_app

The decisions of a game client, verified with Verus: what a setting does when it is written, which
part of the client a server packet reaches, which shadows, lights and post effects a frame shows.

- `src/cvars`: the settings. The registered table, the knobs they land on, the settings file and
  when it is saved.
- `src/net`: a session's events. Their routes, the handler table, and the mailbox.
- `src/shadow`: the shadow rig, its quality settings, and the geometry that casts.
- `src/entities`: the lights that entities carry, the rooms they light, and the lives of spell
  effects.
- `src/post`: the colour grade, the bloom and the sun shafts.
- `src/graphics`: the bridges from settings to renderers, and the lighting panel.
- `src/single.rs`, `src/text.rs`: numbers by their bits, and texts.

Numbers with a fraction are held by their bits (`Single`). Comparing, clamping and rounding them
down is done and proved in `src`; arithmetic on them is done in `app`, which hands the results in.

`app` is ordinary Rust: files, environment switches, the loops that carry out what `src` decides on
a session and a scene, and the arithmetic. `tests` runs the library.
