# si4703

Verified register logic of a driver for the Si4702/Si4703 FM radio tuners.

- `src/registers.rs`: register addresses and bit fields, the byte layout of
  bus reads (which start at `STATUSRSSI` and wrap around) and writes (which
  start at `POWERCFG`), and laws about field writes.
- `src/config.rs`: the settings and the register values that select them,
  with laws about the volume encoding.
- `src/device.rs`: the driver, one method per operation; each takes the bytes
  of the operation's bus read and returns the bytes of its write or the value
  it reads.
- `app/lib.rs`: the I²C side, over `embedded-hal`: it performs the reads and
  writes around each method.
