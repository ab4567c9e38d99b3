# ptouch

Verified core of a label printing suite for Brother P-Touch printers, in Rust
with contracts that Verus proves.

- `src/` is the library. `transport`, `status`, `printer` and `protocol` hold the
  exchanges with a printer as state machines: each step takes what came of the
  last action on the bus and gives the next action. `layout`, `text`, `qr`,
  `bitmap`, `gray` and `rotation` turn documents into rasters. `document` and
  `state` hold what the editor works on. `printer_laws` and `layout_laws` state
  what holds of whole operations and whole labels.
- `app/` performs the actions: USB transfers, text shaping with system fonts, and
  the handles of the editor window.
- `tests/` runs the library on concrete values.

Angles, font sizes and zoom levels are kept as the bits of 32-bit floating point
numbers, times as nanoseconds. Tables of printers and tapes are arguments.

QR codes are encoded by `qrcode` and `qrcodegen`, base64 is decoded by `base64`,
gray images are resized by `image`. The contracts on these calls are the part of
the library that is not proved; each says in its comment what it claims.
