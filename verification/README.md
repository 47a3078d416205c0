# moic_driver

Verified driver logic for the MOIC, a multiple-object-interaction interrupt
controller with per-hart task queues in hardware.

- `src/` (Verus): task identities (`task`), the register writes of each driver
  operation and the decoding of the fetch register (`moic`, `regs`), the
  preparation of a control block before its context is left (`task`), the
  boot hart's start order (`boot`) and the on-board test programs as scripts
  (`scenario`).
- `app/` (plain Rust): the test kernel that performs the register accesses,
  allocates control blocks, starts the harts and runs the scripts.
- `tests/`: tests of the library on concrete values.
