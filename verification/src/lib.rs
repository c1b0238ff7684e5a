//! Guest memory buses and 68060 instruction timing for Motorola 68000 family
//! emulators.

pub mod bits;
pub mod branch_cache;
pub mod branch_laws;
pub mod bus_laws;
pub mod classify;
pub mod cost_laws;
pub mod cpu;
pub mod entry_060;
pub mod entry_laws;
pub mod info_table;
pub mod linear_memory;
pub mod memory;
pub mod memory_laws;
pub mod opcode;
pub mod reg_masks;
pub mod shim;
pub mod timing_060;
pub mod timing_laws;

pub use branch_cache::BranchCache060;
pub use classify::classify_060_opcode;
pub use cpu::{CpuCore, CpuType, Oep060Timing, PendingHead060};
pub use entry_060::{Info060, OepClass};
pub use info_table::{info_060, InfoTable060};
pub use linear_memory::LinearMemoryBus;
pub use memory::{AddressBus, BusFault, BusFaultKind, FastMem, InstructionCacheBus};
pub use reg_masks::reg_masks_060;
pub use timing_060::FinalCycles;
