# can_flasher — verified protocol core

The host-side protocol logic of the IFS08 pit-lane CAN tool, written in
Verus with its contracts proved.

- `src/can_frame.rs` — classic CAN frame (≤ 8 data bytes).
- `src/crc.rs` — CRC-32/ISO-HDLC, with the proof that it detects any change
  confined to two adjacent bytes.
- `src/bytes.rs` — big/little-endian integer reads and writes.
- `src/pit_cal.rs` — the pedal-calibration protocol: commands, guard words,
  the canonical record CRC, status/value decoding, operator messages.
- `src/pit_diag/ecu.rs` — the ECU pit-diag observer stream decoder.
- `src/provision_seed.rs` — the bootloader provisioning seed record and the
  seed-support check of a bootloader ELF (symbols read with `object`).
- `src/logfs_client.rs` — the decisions of a LOGFS pull: retry, session
  recovery, length and CRC checks.
- `app/` — the I/O around it: reading images from disk and driving a pull
  over a diag session with tokio timers.
- `tests/` — runtime tests.
