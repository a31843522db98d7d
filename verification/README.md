# macpow

Data model and output logic of an Apple Silicon power monitor, verified with Verus.

- `src/types.rs`: the integer, flag and text records of a sample (adapter, panel
  class, Ethernet, USB devices, Bluetooth devices, power assertions) and their defaults.
- `src/cli.rs`: which mode a run selects from its flags.
- `src/smc_dump.rs`: the SMC key listing (line layout, the whole listing, the
  empty-listing note), the SMC and IOReport failure messages, and the column law.
- `src/tui.rs`: the terminal front end as a state machine from state and event to
  next state and action, with its laws (no terminal means an immediate failure;
  every exit from the running screen restores the terminal once, last).
- `src/json.rs`: what the JSON front end does on a sample, a timeout and a disconnect.
- `app/`: the program itself (command line, sampling thread, JSON and terminal
  output) and the records that hold floating-point readings, with serde derives.
