# mos6502r

An emulator of the MOS 6502 processor, verified with Verus.

- `src/register.rs`: the status register and its byte encoding.
- `src/memory.rs`: the 64 KiB memory, and placing a ROM image at the top of
  memory with its start address from the reset vector (`load_rom`).
- `src/opcodes.rs`: the opcode constants, named `MNEMONIC_MODE`.
- `src/isa.rs`: operations, addressing modes and the opcode table (`decode`).
- `src/machine.rs`: the model: processor state, the effect of each instruction,
  one step and running until BRK.
- `src/cpu.rs`: the processor; `step` and `run` are proved to follow the model.
- `src/laws.rs`: properties of the model across instructions (stack round
  trips, JSR/RTS, ADC/SBC arithmetic, rotations).
- `app/main.rs`: reads a ROM file, loads it with `load_rom` and runs it,
  optionally printing every step.
