# sigma_racer_sidearm

The Sigma Racer M7 safety-bus CAN dictionary, its RPMsg snapshot wire format
and the safety-core logic of the i.MX8M Plus Cortex-M7 firmware, written in
Verus.

- `src/` is the verified library: the message ids and ride-mode table, the
  signal routing shared by both directions of the CAN codec, the 60-byte
  snapshot packet, and the peripheral drivers expressed as register programs
  (`RegOp` sequences) whose layout and state machines carry contracts.
- `app/` is the unverified shell around it: volatile register access, the
  resource-table static, the DBC engine's floating-point decode/encode, and
  the firmware loop that performs the register programs.
- `tests/` runs the library on concrete values.

The DBC engine is `dbc-rs`; parsing goes through `database::parse`.
