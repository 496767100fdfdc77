//! Asynchronous positional file I/O built on POSIX AIO.
//!
//! The library describes the arguments that each file operation hands to the
//! AIO layer (`request`) and decides, on every poll of an operation's future,
//! what to do next (`poll`): start the operation, wait, collect its result or
//! report an error.  The program around it performs those steps with the
//! reactor and the AIO control block.
pub mod poll;
pub mod request;
