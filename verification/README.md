# bw_r_drivers_tc37x

Drivers for the Infineon AURIX TC37x microcontrollers, written in Verus.

The library (`src/`) decides what the drivers do and proves it: CAN bit
timing, CAN node configuration, the transmit and receive buffer elements of
the message RAM, GPIO pin modes and levels, watchdog end-of-init sequences,
the clock configuration and the frequencies it gives, the reset cause. Each
operation returns the register accesses that carry it out, as values
(`NodeEffect`, `GpioEffect`, `WdtWrite`, `CcuOp`), and takes the register
values it needs as arguments.

`app/` performs those accesses on the device (or records them, for host
tests), runs the waits, and implements the `embedded-hal` digital pin traits.

Layout:

- `src/can`: bit timing (`baud_rate`), frames, identifiers, message RAM
  elements (`reg`, `internals`), modules and nodes (`can_module`, `can_node`).
- `src/gpio`: pins in their type states, erased pins, pin groups.
- `src/scu`: watchdogs (`wdt`) and the clock control unit (`ccu`).
- `src/ssw`: start-up decisions.
- `src/tracing`, `src/intrinsics`, `src/log`: the access log used by tests
  and its text format.
