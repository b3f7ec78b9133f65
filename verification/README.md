# bno08x

A driver core for the BNO08x IMU (SH-2 over SHTP), verified with Verus.

- `src/` — the verified library: the SHTP packet format (`data`), report
  codes (`register`, `spi`), report tables and field decoding (`parsing`),
  the latest sensor readings (`sensors`), FRS record requests (`frs`), and
  the driver's decisions (`driver`): sequence counters, outgoing packets,
  packet waits, feature enabling with dependencies, and the folding of
  sensor reports. `bounded` states what the `heapless` vectors it uses do.
- `app/` — the driver on an `embedded-hal` I2C bus and delay, which runs
  the bus transfers the core asks for and scales fixed-point readings to
  floats.
- `tests/` — tests of the library on concrete values.
