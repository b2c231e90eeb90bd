# RoKi firmware logic

Verified logic of the RoKi split keyboard (two nice!nano halves, a BLE
dongle and a PMW3360 trackball peripheral), checked with Verus.

- `src/joystick.rs` — ADC sample to mouse movement: centring, 45° rotation
  per half, scaling, clamping, circular dead zone.
- `src/trackball.rs` — PMW3360 SPI frames, 16-bit delta assembly, start-up
  handshake and motion poll as state machines.
- `src/buzzer.rs` — connect/disconnect tone sequences and the square-wave
  plan of one beep.
- `src/ble_addr.rs` — the dongle's static random BLE address.
- `src/forwarding.rs` — non-blocking hand-off to the event channel and the
  central's processor order.
- `src/keymap.rs`, `src/hid.rs` — default keymap and encoder map.
- `app/` — the firmware shell around the library: RMK, embassy-nrf and the
  SoftDevice controller do the I/O, the library decides.
