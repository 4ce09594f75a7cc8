//! A minimal freestanding execution runtime: the thin layer between a
//! compiled program and the raw process ABI when no full standard library
//! is available.  It supplies the integration points a toolchain needs to
//! produce a runnable binary: an entry trampoline, a termination-reporting
//! protocol that maps a program's logical outcome to a numeric exit
//! status, a panic handler that halts for good, and a narrow bridge for
//! writing bytes to a file descriptor.

pub mod bridge;
pub mod entry;
pub mod halt;
pub mod hooks;
pub mod prelude;
pub mod term;
