//! User-space side of a microkernel's mailbox IPC layer, together with an
//! executable model of the kernel tables that the kernel calls act on.

pub mod kcall;
pub mod kernel;
pub mod ipc;
pub mod logging;
pub mod sys;
pub mod selftest;
