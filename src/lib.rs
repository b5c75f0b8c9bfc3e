//! Typed host-facing entities of a WebAssembly instance: functions, globals,
//! tables and linear memories, and the `Extern` union over them.

pub mod values;
pub mod types;
pub mod func;
pub mod global;
pub mod table;
pub mod memory;
pub mod externals;
