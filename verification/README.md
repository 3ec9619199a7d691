# rs6502

A MOS 6502 CPU core with a memory bus and the NES devices around it, written
in Verus: every function of the library carries a contract and is proved
against it, except one trusted wrapper, `trace::push_char`, whose body is a
single call of std's `String::push` and whose contract Verus takes on trust.

Layout:

- `src/error.rs`: the error type and its messages.
- `src/flags.rs`: the status register and its flags.
- `src/memory.rs`: the `Memory` trait, with a spec model of what a device
  holds and the byte/word helpers proved against it.
- `src/bus.rs`: the bus, which maps address ranges to devices.
- `src/nes.rs`: the iNES cartridge parser, work RAM, and the device enum.
- `src/ops.rs`: addressing modes and the opcode table.
- `src/model.rs`: the semantics of each instruction and of a run of cycles,
  as spec functions.
- `src/cpu.rs`: the CPU, whose `execute` is proved to follow `model::run`;
  `try_execute` checks each step's accesses at run time first.
- `src/trace.rs`: the one-line trace of the next instruction.
- `src/properties.rs`: laws that span several operations (stack round
  trips, JSR/RTS, interrupt/RTI, flag arithmetic), stated for any memory
  whose stack page behaves as RAM, with proofs that work RAM and a console
  bus with its stack page in work RAM do.
- `app/`: the NES front end (file loading, timing, the main loop).
