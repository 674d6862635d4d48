# blazingice

Game logic of a small arcade car racer built on bevy, verified with Verus.

- `src/drive.rs`: keyboard to controls, and each frame's driving decisions
  (nitro, throttle, steering, drift and turning, the jump state machine).
- `src/assets.rs`: what is shown while the map and car models load or fail.
- `src/timing.rs`: the nitro exhaust spawn timer and particle lifetimes,
  ticked through bevy's `Timer`.
- `src/world.rs`: the layout of the fallback ground grid.
- `app/`: the bevy application: systems, rendering, and the floating-point
  physics that carry out the library's decisions.
