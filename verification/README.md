# eighty-eighty

An Intel 8080 emulator for the Space Invaders arcade board, written in Verus.

- `src/model.rs` describes the processor as a state machine over mathematical
  values: what every opcode does to the registers, flags, ports and memory.
- `src/cpu.rs` is the interpreter; `execute_instruction` is proved to do what
  `model::step` says, and `step`, `try_interrupt` and `reset` likewise.
- `src/memory.rs`, `src/keypad.rs`, `src/display.rs`, `src/gfx.rs` and
  `src/debugger.rs` hold the address space, the cabinet controls, the two
  ways of showing video memory and the register viewer.
- `src/interconnect.rs` runs the board one frame at a time.
- `src/text.rs` writes numbers and flags out as text for the register trace
  (`Registers::trace_line`).
- `src/laws.rs` proves properties that span several instructions or calls,
  such as PUSH/POP and CALL/RET round trips and decimal addition with DAA.
- `app/` is the program around the library: files, windows and keys.
