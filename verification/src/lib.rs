//! A crash-surviving circular log over a small byte-addressable
//! nonvolatile store reached through bounded bus transactions.
//!
//! The store is abstracted as a [`store::ByteStore`]; appends go through a
//! chunked write discipline, a wrapping cursor marks the next free offset,
//! and a single terminator byte marks the end of valid log data. A
//! boot-time replay scans the window for the terminator and decodes the
//! text written before it.

use vstd::prelude::*;

pub mod appender;
pub mod chunk;
pub mod cursor;
pub mod fault;
pub mod laws;
pub mod replay;
pub mod sink;
pub mod store;

verus! {

/// Size in bytes of the logical window of the store that holds the log.
pub const WINDOW_SIZE: u16 = 8192;

/// Sentinel byte written immediately after the most recent record.
pub const TERMINATOR: u8 = 0;

} // verus!
