# gameboy

A Game Boy emulator core verified with Verus.

- `src/registers.rs`: the register file, 16-bit register pairs and flags.
- `src/machine.rs`: the abstract machine state and the memory bus: what a
  read returns and what a write does, bank controller included.
- `src/isa.rs`, `src/cpu.rs`: the instruction set as spec functions, one
  step of the processor included; faults (missing banks, disabled RAM,
  16-bit overflow, an invalid banking mode) are results, not panics.
- `src/cartridge.rs`: the cartridge header and what loading a ROM does.
- `src/screen.rs`: the background picture that `frame` renders.
- `src/console.rs`: the executable console, each method proved against
  the spec functions above.
- `src/laws.rs`: properties across operations (read after write, push then
  pop, CALL then RET, ROM is read-only, the program cannot change the
  cartridge, a loaded ROM reads back, pixel colours, register laws).
- `app/`: the `wasm_bindgen` wrapper that JavaScript calls.
