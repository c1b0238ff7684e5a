# m68k

Guest memory buses and 68060 instruction timing for emulators of the Motorola
68000 family, verified with Verus.

- `src/memory.rs`: the bus traits. `AddressBus` asks for six basic accesses and
  makes everything else of them; the contracts of the provided methods say how.
- `src/linear_memory.rs`: `LinearMemoryBus`, a flat block of RAM in which
  addresses wrap, with a version for code caches. `src/memory_laws.rs` states
  when a read gives back what was written, what a write leaves alone, and what
  a direct RAM window shows.
- `src/opcode.rs`, `src/entry_060.rs`, `src/classify.rs`, `src/info_table.rs`,
  `src/reg_masks.rs`: what the 68060 timing model reads off an opcode word.
- `src/branch_cache.rs`, `src/cpu.rs`, `src/timing_060.rs`: the branch cache,
  superscalar pairing and the cost of retired instructions.
  `src/timing_laws.rs` states what holds across instructions, such as that
  emulated time always moves on, and that what only the primary pipeline
  executes never shares a clock.
- `src/bits.rs`, `src/shim.rs`: masks, and slots for single-threaded hosts.
- `app/`: ordinary Rust around the library: floating point through `libm`,
  saved state through `serde`, a process-wide table, raw RAM windows.
- `tests/`: tests of the library on concrete values.
