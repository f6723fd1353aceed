//! Core of a small fixed-width instruction-set virtual machine: 16 eight-bit
//! registers, 4 KB of memory addressed by 12-bit values, a 16-entry call
//! stack, two countdown timers and a monochrome bitmap display driven by
//! sprite-drawing opcodes. The crate holds the machine state, the opcode
//! decoder, the execution engine, the per-tick cycle driver and the input
//! bridge; host scheduling and rendering live outside it.

pub mod decode;
pub mod error;
pub mod exec;
pub mod keyboard;
pub mod laws;
pub mod machine;
pub mod rng;
pub mod screen;
pub mod state;
