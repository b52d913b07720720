//! Request-dispatch core of a fixed-membership connection pool, together with
//! the date and string-mapping value types that travel through it.
//!
//! The pool side is a shared FIFO queue of pending operations, a client handle
//! that submits operations and fans a wakeup signal out to every registered
//! connection, and a per-connection state machine that alternates between
//! claiming queued work and sleeping on a bounded timer.  The value side is a
//! UTC date type with exact, verified formatting and parsing, and the mapping
//! descriptors for string fields.

pub mod date;
pub mod formats;
pub mod fsm;
pub mod handle;
pub mod mapping;
pub mod queue;
