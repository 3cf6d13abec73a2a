# epd_waveshare_async

Driver logic for Waveshare e-paper displays, verified with Verus.

- `src/` is the verified library: framebuffers that pack pixels into bytes (`buffer`), the
  drawing model they are specified against (`canvas`, `geometry`), drawing through quarter-turn
  rotations (`rotation`), and the panels' state machines and command sequences (`display`,
  `epd7in5_v2`, `epd7in3e`), which plan each operation as a list of hardware steps (`hw`).
- `app/` is the asynchronous driver around it: the hardware traits over `embedded-hal` and
  `embedded-hal-async`, the code that carries out the planned steps over SPI, pins and a delay
  timer, and `embedded-graphics` draw targets for the framebuffers.
- `tests/` exercises the library on concrete values.
