//! A log sink that relays formatted records as messages to a remote
//! broker without blocking the logging call on network I/O. A command
//! queue decouples the caller from a dedicated worker that owns the
//! broker connection; the level gate, the payload path, the queue
//! discipline and the shutdown protocol are specified and verified here,
//! while the embedding supplies the thread, the broker client and the
//! record formatter.

pub mod command;
pub mod errors;
pub mod format;
pub mod level;
pub mod payload;
pub mod queue;
pub mod sink;
pub mod worker;
