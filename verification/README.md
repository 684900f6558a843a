# excalibur_core

Verified core of the Casper Excalibur laptop driver and its `excalibur-ctl`
utility, written in Verus.

- `src/protocol.rs`: WMI command codes and request buffers.
- `src/led.rs`: LED modes, colours, hex colour parsing, the packed 32-bit
  LED word, zone state.
- `src/power.rs`: power plans and their Linux `platform_profile` mapping.
- `src/fan.rs`: fan RPM decoding with the byte-order quirk of older models.
- `src/ffi.rs`: the flat entry points the kernel module calls, over plain
  values and `&mut` outputs.
- `src/ctl.rs`: the decisions of the command-line utility.
- `src/text.rs`: trimming and comparison helpers.
- `app/`: the utility itself (sysfs I/O and printing) and the C ABI exports
  that take raw pointers.

Each public function states its result over spec functions; the `lemma_*`
proof functions state the round-trip and consistency laws.
