//! Execution core of a small kernel: threads and their saved register state, the
//! thread and process tables, the cooperative task that drives a thread's trap
//! loop, the frame-pointer stack unwinder, and a few on-disk metadata records.
pub mod apfs;
pub mod context;
pub mod debug;
pub mod error;
pub mod net;
pub mod syscall;
pub mod task;
pub mod thread;
pub mod zero;
