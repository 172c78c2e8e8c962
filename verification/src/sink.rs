//! The leveled-logging facade: decide whether a severity passes the
//! configured minimum and, when it does, append one formatted record.

use vstd::prelude::*;
use vstd::string::StringSliceAdditionalSpecFns;
use vstd::utf8::encode_utf8;

use crate::appender::{append_image, FramLog};
use crate::store::{ByteStore, StoreError};
use crate::WINDOW_SIZE;

verus! {

/// Severity of a record, most severe first.
#[derive(Clone, Copy, Debug, PartialEq, Eq, Structural)]
pub enum Level {
    Error,
    Warn,
    Info,
    Debug,
    Trace,
}

/// Numeric rank of a severity: lower is more severe.
pub open spec fn rank(level: Level) -> int {
    match level {
        Level::Error => 1,
        Level::Warn => 2,
        Level::Info => 3,
        Level::Debug => 4,
        Level::Trace => 5,
    }
}

/// The label a record carries for each severity.
pub open spec fn spec_level_label(level: Level) -> Seq<char> {
    match level {
        Level::Error => "ERROR"@,
        Level::Warn => "WARN"@,
        Level::Info => "INFO"@,
        Level::Debug => "DEBUG"@,
        Level::Trace => "TRACE"@,
    }
}

/// The label as text.
pub fn level_label(level: Level) -> (r: &'static str)
    ensures
        r@ == spec_level_label(level),
{
    match level {
        Level::Error => "ERROR",
        Level::Warn => "WARN",
        Level::Info => "INFO",
        Level::Debug => "DEBUG",
        Level::Trace => "TRACE",
    }
}

/// A record passes when its severity is at or above the minimum.
pub fn enabled(level: Level, min: Level) -> (r: bool)
    ensures
        r == (rank(level) <= rank(min)),
{
    let l: u8 = match level {
        Level::Error => 1,
        Level::Warn => 2,
        Level::Info => 3,
        Level::Debug => 4,
        Level::Trace => 5,
    };
    let m: u8 = match min {
        Level::Error => 1,
        Level::Warn => 2,
        Level::Info => 3,
        Level::Debug => 4,
        Level::Trace => 5,
    };
    l <= m
}

/// The bytes of one facade record: the severity's label, a separator, the
/// message, and the line break.
pub open spec fn spec_sink_record(level: Level, message: Seq<char>) -> Seq<u8> {
    encode_utf8(spec_level_label(level)) + encode_utf8(" - "@) + encode_utf8(message)
        + encode_utf8("\n"@)
}

/// Format one facade record.
pub fn sink_record(level: Level, message: &str) -> (r: Vec<u8>)
    ensures
        r@ == spec_sink_record(level, message@),
{
    let mut r: Vec<u8> = Vec::new();
    r.extend_from_slice(level_label(level).as_bytes());
    r.extend_from_slice(" - ".as_bytes());
    r.extend_from_slice(message.as_bytes());
    r.extend_from_slice("\n".as_bytes());
    proof {
        assert(r@ =~= spec_sink_record(level, message@));
    }
    r
}

/// One facade call: when `level` passes `min`, format the record and
/// append it; otherwise leave the log untouched. A record too long for the
/// window is dropped rather than written. Flushing is a no-op: every write
/// is synchronous.
pub fn sink_log<S: ByteStore>(
    log: &mut FramLog<S>,
    min: Level,
    level: Level,
    message: &str,
) -> (r: Result<(), StoreError>)
    requires
        old(log).wf(),
    ensures
        final(log).wf(),
        final(log).contents().len() == old(log).contents().len(),
        !(rank(level) <= rank(min)) || spec_sink_record(level, message@).len() >= WINDOW_SIZE
            ==> final(log).contents() == old(log).contents() && final(log).cursor() == old(
            log,
        ).cursor() && r is Ok,
        rank(level) <= rank(min) && spec_sink_record(level, message@).len() < WINDOW_SIZE ==> {
            &&& final(log).cursor() == (old(log).cursor() + spec_sink_record(
                level,
                message@,
            ).len()) % (WINDOW_SIZE as int)
            &&& (r is Ok ==> final(log).contents() == append_image(
                old(log).contents(),
                old(log).cursor(),
                spec_sink_record(level, message@),
            ))
        },
{
    if !enabled(level, min) {
        return Ok(());
    }
    let rec = sink_record(level, message);
    if rec.len() >= WINDOW_SIZE as usize {
        return Ok(());
    }
    log.append_bytes(rec.as_slice())
}

} // verus!
