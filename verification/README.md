# embedded_runner

Verified board logic of the nRF52840 (Proto2) security-key runner.

- `src/version.rs`: the firmware version, parsing of the decimal version
  fields, the packed (`encode`) and USB (`usb_release`) forms, and the text form.
- `src/qspi.rs`: geometry of the external QSPI flash as littlefs storage and
  the register values of its reads, writes, erases and JEDEC id query.
- `src/board.rs`: the buttons, which of them raise the GPIO interrupt, the
  keep-alive pins and the start-up banner.
- `src/power.rs`: the ordered power-off sequence.
- `app/`: the code that drives the registers (QSPI driver, power-off,
  panic LED) with the values the library computes.
