# logitech-sim-led

Racing-game telemetry in, Logitech wheel shift-light LEDs out.

- `src/` is the verified library (Verus): the Forza "Data Out" packet
  parser and the source's publishing rule, the LED bar states and the
  wheel HID protocol, the choice of which HID interface to open, the LED
  writer's state machine, configuration defaults and search paths, and a
  hex dump helper. Every function carries a contract that Verus proves.
- `app/` is the program around it: the async service (tokio event bus,
  UDP source, HID writer thread, auxiliary serial display), the local web
  dashboard, the tray/webview GUI, and the developer subcommands. It holds
  the floating-point parts (the RPM curve, unit conversions) and all I/O.
- `tests/` exercise the library on concrete values.

Float fields of Forza packets are kept by the library as their IEEE-754 bit
patterns; `f32::from_bits` gives the value.
