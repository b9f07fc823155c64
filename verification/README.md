# vrp8

Verified core of the vr.p8 helper, which connects a vr-enabled PICO-8
cartridge to a VR headset.

- `src/` (Verus): the byte layouts shared with the cartridge (the GPIO
  interface block and the transform buffer), the triangle fans drawn from the
  transform buffer, finding the cartridge's magic sequence in process memory,
  and the helper's scan/frame loop as a state machine (`helper::Helper::step`).
- `app/`: the program around it: process discovery, memory reads and writes,
  timers, Ctrl-C handling, printing, and the OpenXR probe (`vrp8 xr`).
- `tests/`: tests of the library on concrete values.
