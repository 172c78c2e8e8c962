//! The fault path: format the diagnostics of an unrecoverable failure and
//! append them best-effort. This code runs when nothing below it can be
//! trusted to handle another failure, so it never fails itself: store
//! errors are swallowed and oversized records are dropped.

use vstd::prelude::*;
use vstd::string::StringSliceAdditionalSpecFns;
use vstd::utf8::encode_utf8;

use crate::appender::FramLog;
use crate::store::ByteStore;
use crate::WINDOW_SIZE;

verus! {

/// Decimal digits of `n`, most significant first.
pub open spec fn dec_digits(n: nat) -> Seq<u8>
    decreases n,
{
    if n < 10 {
        seq![(48 + n) as u8]
    } else {
        dec_digits(n / 10).push((48 + n % 10) as u8)
    }
}

/// Render `n` in decimal.
pub fn u32_decimal(n: u32) -> (r: Vec<u8>)
    ensures
        r@ == dec_digits(n as nat),
    decreases n,
{
    if n < 10 {
        let mut r: Vec<u8> = Vec::new();
        r.push(48 + n as u8);
        proof {
            assert(r@ =~= dec_digits(n as nat));
        }
        r
    } else {
        let mut r = u32_decimal(n / 10);
        r.push(48 + (n % 10) as u8);
        r
    }
}

/// The diagnostic record for a failure whose source location is known.
pub open spec fn spec_location_record(file: Seq<char>, line: nat) -> Seq<u8> {
    encode_utf8("Panic occurred in file '"@) + encode_utf8(file) + encode_utf8("' at line "@)
        + dec_digits(line) + encode_utf8("\n"@)
}

/// The fixed note written when the failure's location is unavailable.
pub open spec fn spec_unknown_location_record() -> Seq<u8> {
    encode_utf8("Panic occurred but can't get location information..."@) + encode_utf8("\n"@)
}

/// The failure's own message as a record of its own.
pub open spec fn spec_message_record(message: Seq<char>) -> Seq<u8> {
    encode_utf8(message) + encode_utf8("\n"@)
}

/// Format the record naming the failure's file and line.
pub fn location_record(file: &str, line: u32) -> (r: Vec<u8>)
    ensures
        r@ == spec_location_record(file@, line as nat),
{
    let mut r: Vec<u8> = Vec::new();
    r.extend_from_slice("Panic occurred in file '".as_bytes());
    r.extend_from_slice(file.as_bytes());
    r.extend_from_slice("' at line ".as_bytes());
    let digits = u32_decimal(line);
    r.extend_from_slice(digits.as_slice());
    r.extend_from_slice("\n".as_bytes());
    proof {
        assert(r@ =~= spec_location_record(file@, line as nat));
    }
    r
}

/// Format the fixed unknown-location note.
pub fn unknown_location_record() -> (r: Vec<u8>)
    ensures
        r@ == spec_unknown_location_record(),
{
    let mut r: Vec<u8> = Vec::new();
    r.extend_from_slice("Panic occurred but can't get location information...".as_bytes());
    r.extend_from_slice("\n".as_bytes());
    proof {
        assert(r@ =~= spec_unknown_location_record());
    }
    r
}

/// Format the failure's message on a line of its own.
pub fn message_record(message: &str) -> (r: Vec<u8>)
    ensures
        r@ == spec_message_record(message@),
{
    let mut r: Vec<u8> = Vec::new();
    r.extend_from_slice(message.as_bytes());
    r.extend_from_slice("\n".as_bytes());
    proof {
        assert(r@ =~= spec_message_record(message@));
    }
    r
}

/// Write an unrecoverable failure's diagnostics into the log: the source
/// location when known (the fixed note when not), then the failure's
/// message. Every append is best-effort — a store failure is swallowed, a
/// record too long for the window is dropped — and the log stays
/// well-formed whatever happens, so fault handling can never raise a
/// second failure. The cursor still moves for every record that was
/// attempted, as an append does.
pub fn capture_fault<S: ByteStore>(
    log: &mut FramLog<S>,
    location: Option<(&str, u32)>,
    message: &str,
)
    requires
        old(log).wf(),
    ensures
        final(log).wf(),
        final(log).contents().len() == old(log).contents().len(),
        final(log).cursor() == ({
            let rec1 = match location {
                Some(loc) => spec_location_record(loc.0@, loc.1 as nat),
                None => spec_unknown_location_record(),
            };
            let rec2 = spec_message_record(message@);
            let len1: int = if rec1.len() < WINDOW_SIZE {
                rec1.len() as int
            } else {
                0
            };
            let len2: int = if rec2.len() < WINDOW_SIZE {
                rec2.len() as int
            } else {
                0
            };
            ((old(log).cursor() + len1) % (WINDOW_SIZE as int) + len2) % (WINDOW_SIZE as int)
        }),
{
    let rec = match location {
        Some(loc) => location_record(loc.0, loc.1),
        None => unknown_location_record(),
    };
    if rec.len() < WINDOW_SIZE as usize {
        let _ = log.append_bytes(rec.as_slice());
    }
    let rec2 = message_record(message);
    if rec2.len() < WINDOW_SIZE as usize {
        let _ = log.append_bytes(rec2.as_slice());
    }
}

} // verus!
