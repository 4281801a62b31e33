# FTC Tui

A terminal driver station for FTC robots: it speaks the robot controller's UDP protocol,
lists and runs opmodes, sends gamepad state, shows telemetry and times matches.

## Keys

The hotkeys are those of the usage table: Tab / Right and Shift + Tab / Left move between
the blocks, K / Up and J / Down move in a list or scroll the telemetry, Enter initializes,
runs or stops the selected opmode, Space runs or stops the active one, Escape goes back,
`:` opens the command bar, `r` asks whether to restart the robot, and Q or Ctrl + C quit.

`m` opens the quick menu, which leads to the match timer (start or stop a match and its
sound cues), the hardware configuration screen, robot restart, settings and exit.

## Layout

- `src/` is the library, verified with Verus. It holds the protocol (packet framing and
  the big-endian encoding of every packet, with read-after-write laws), the hardware
  configuration XML document (parsing and writing; its round-trip law is proved on the
  sequence of tags, the text itself being read and written by `xml-rs`), the decisions
  of the network loop (sequence numbers, retransmission, connection state, what each
  received packet changes), the key handling of the interface, gamepad binding, opmode
  ordering, match timing and its sound schedule, and the command bar.
- `app/` is the program around it: command line, logging, terminal drawing, the UDP
  socket and its loop, gamepad input, sound playback and JSON. It hands the library plain
  values and acts on what the library decides.
- `tests/` exercises the library on concrete values.

Run the verifier on `src/lib.rs`; the tests and the program build with Cargo.
