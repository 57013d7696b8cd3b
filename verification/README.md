# usb2ble

The verified core of a USB-HID-joystick to BLE-gamepad bridge, written in
Verus. Every function in `src/` carries a contract that Verus proves, except
four trusted wrappers whose contracts Verus believes: `utf8_is_valid` in
`src/framing.rs` (std's UTF-8 check) and the three `*_debug` wrappers in
`src/replay.rs` (std's `{:?}` rendering, whose text is named, not written
out).

## Layout

- `src/hid_descriptor.rs`, `src/hid_decode.rs`, `src/normalize.rs`,
  `src/runtime.rs`, `src/profile.rs`: the HID pipeline, from report
  descriptor bytes to a normalized joystick state and the fixed gamepad
  report.
- `src/messages.rs`, `src/framing.rs`, `src/bundle.rs`: the line-oriented
  control protocol and its wire format.
- `src/ble_hid.rs`, `src/console_uart.rs`, `src/nvs_store.rs`,
  `src/usb_host.rs`: the platform seams (traits whose implementations describe
  their behaviour through spec predicates) with in-memory adapters and
  off-target stand-ins; `src/usb_host.rs` also holds the device-side
  decisions of the USB host backend (configuration descriptor walk, control
  and interrupt transfer payloads, staged event routing).
- `src/ble_backend.rs`: the BLE HID backend as a state machine over stack
  events, its publish plan and its initialization steps.
- `src/app.rs`: the coordinator that handles commands and USB events and
  pumps console and USB work one action at a time.
- `src/embedded.rs`: the coordinator bundled with its adapters, stepped and
  drained under a step limit.
- `src/replay.rs`: the replay script format, its parser, and the host replay
  and demo drivers.
- `app/main.rs`: the command-line front end (`--embedded-contract`,
  `--replay-host <path>`, `--demo-host`).
- `app/device/`: on the ESP-IDF target only, the stack calls of the USB host,
  BLE, UART and NVS backends, driven by the library's decisions, and the
  console loop of the firmware.

## Replay scripts

One command per line; blank lines and lines starting with `#` are skipped:

```text
ATTACH <device> <vendor> <product>
DESCRIPTOR <hex byte>...
INPUT <report id in hex> <hex byte>...
DETACH <device>
```
