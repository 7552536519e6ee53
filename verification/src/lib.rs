//! A cycle-accurate, data-flow simulator for a RISC-V core with a vector
//! extension.  Instructions stream through functional units, a load/store
//! unit and a register file at the granularity of bytes per cycle; payload
//! bytes are counters, never values.  The crate models timing and
//! dependencies only: the decoded instruction sequence and the configuration
//! come from the caller.

pub mod config;
pub mod error;
pub mod inst;
pub mod parens;
pub mod sim;
pub mod cpu;
