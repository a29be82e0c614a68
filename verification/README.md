# flipperzero

A verified core of a Rust SDK for the Flipper Zero. The library under `src/` holds the
logic of the SDK, each function with a contract that Verus proves:

- `furi`: wrapping kernel-tick instants and tick durations, status codes, kernel lock
  states, log levels and filters, string searching with patterns, sleep delays and
  event-flag options;
- `bluetooth`: Advertisement Data packets (iBeacon, AltBeacon, Eddystone-URL), the
  beacon's configuration and state, and the radio test commands;
- `gpio`: I2C device addresses and transaction framing, SPI sub devices;
- `gui`, `input`, `dialogs`, `dolphin`, `filesystem`: the firmware's numbers for their
  values, the canvas's drawing decisions, file open options and seeks.

`app/` is the thin layer that calls the firmware (through `flipperzero_sys`, which is
not part of this repository) and performs what the library decides. `tests/` runs the
library on concrete values.
