//! A transparent TCP relay with a process-wide idle watchdog, as a set of
//! verified decision procedures.
//!
//! The relay listens on one address, opens a connection to a fixed
//! destination for every connection that it accepts, and copies bytes both
//! ways until a side closes or fails. The whole process ends when nothing has
//! given a sign of life for a configured time.
//!
//! The library performs no I/O and reads no clock. Each of its parts is a
//! state machine that is told what happened and answers with what to do
//! next; a thin program around it owns the sockets, the tasks and the clock.
//!
//! - [`pump`]: one direction of a connection, from readiness over read,
//!   write and flush to the passing on of the end of the stream.
//! - [`session`]: the two pumps of one connection and its resolution.
//! - [`fleet`]: many sessions side by side, and that they do not interfere.
//! - [`timer`]: the idle countdown.
//! - [`accept`]: the accept loop, which owns the countdown.
//! - [`address`]: the choice among the addresses of a host name.

pub mod accept;
pub mod address;
pub mod fleet;
pub mod pump;
pub mod session;
pub mod timer;
