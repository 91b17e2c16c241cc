//! A deterministic-execution harness for Windows programs: the simulated
//! clock, input state and window-message queue that the injected hooks keep,
//! the framing of the messages exchanged with the controlling process, the
//! memory bookkeeping used to save and restore a process, and the small code
//! thunks that are written into the target process.

pub mod memory;
pub mod movie;
pub mod process;
pub mod saved_state;
pub mod bytes;
pub mod errors;
pub mod event_queue;
pub mod exports;
pub mod code;
pub mod input;
pub mod ipc;
pub mod state;
pub mod text;
pub mod time;
