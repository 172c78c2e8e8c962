//! Boot-time replay: scan the window from its start in fixed-size blocks,
//! gather the bytes before the terminator, and decode them as text.

use vstd::prelude::*;
use vstd::utf8::{decode_utf8, valid_utf8};

use crate::store::{ByteStore, StoreError, READ_BLOCK_LEN};
use crate::{TERMINATOR, WINDOW_SIZE};

verus! {

/// Where the first terminator byte stands in `s`, or `s.len()` if there is
/// none.
pub open spec fn term_pos(s: Seq<u8>) -> int
    decreases s.len(),
{
    if s.len() == 0 {
        0
    } else if s[0] == TERMINATOR {
        0
    } else {
        1 + term_pos(s.drop_first())
    }
}

/// The valid log data in a store image: the bytes of the window that stand
/// before the first terminator, or the whole window if no terminator was
/// ever written.
pub open spec fn log_prefix(s: Seq<u8>) -> Seq<u8> {
    let w = s.take(WINDOW_SIZE as int);
    w.take(term_pos(w))
}

/// A position with no terminator before it and one at it (or the end of
/// `s`) is exactly [`term_pos`].
pub proof fn lemma_term_pos_unique(s: Seq<u8>, k: int)
    requires
        0 <= k <= s.len(),
        forall|i: int| 0 <= i < k ==> s[i] != TERMINATOR,
        k < s.len() ==> s[k] == TERMINATOR,
    ensures
        term_pos(s) == k,
    decreases s.len(),
{
    if s.len() > 0 && s[0] != TERMINATOR {
        assert(s[0] != TERMINATOR);
        assert(forall|i: int| 0 <= i < k - 1 ==> s.drop_first()[i] == s[i + 1]);
        lemma_term_pos_unique(s.drop_first(), k - 1);
    }
}

/// Why a replay stopped without text.
#[derive(Clone, Copy, Debug, PartialEq, Eq, Structural)]
pub enum ReplayError {
    /// A read transaction failed; the failure is carried as-is.
    Bus(StoreError),
    /// The bytes before the terminator are not valid UTF-8.
    Decode,
}

/// Read the window from its start in blocks of [`READ_BLOCK_LEN`] bytes
/// and collect everything before the first terminator; with no terminator
/// the scan stops at the window's end and yields the whole window. The
/// store is read, never written.
pub fn replay_window<S: ByteStore>(store: &mut S) -> (r: Result<Vec<u8>, StoreError>)
    requires
        WINDOW_SIZE <= old(store).contents().len(),
    ensures
        final(store).contents() == old(store).contents(),
        r is Ok ==> r->Ok_0@ == log_prefix(old(store).contents()),
{
    let ghost w = old(store).contents().take(WINDOW_SIZE as int);
    let mut collected: Vec<u8> = Vec::new();
    let mut adrs: u16 = 0;
    while adrs < WINDOW_SIZE
        invariant
            WINDOW_SIZE <= old(store).contents().len(),
            store.contents() == old(store).contents(),
            w == old(store).contents().take(WINDOW_SIZE as int),
            adrs <= WINDOW_SIZE,
            adrs as int % (READ_BLOCK_LEN as int) == 0,
            collected@ == w.take(adrs as int),
            forall|i: int| 0 <= i < adrs ==> w[i] != TERMINATOR,
        decreases WINDOW_SIZE - adrs,
    {
        let block = match store.read_tx(adrs, READ_BLOCK_LEN) {
            Ok(b) => b,
            Err(e) => {
                return Err(e);
            },
        };
        let mut p: usize = 0;
        while p < block.len()
            invariant_except_break
                block@.len() == READ_BLOCK_LEN,
                p <= READ_BLOCK_LEN,
                forall|i: int| 0 <= i < p ==> block@[i] != TERMINATOR,
            ensures
                block@.len() == READ_BLOCK_LEN,
                p <= READ_BLOCK_LEN,
                forall|i: int| 0 <= i < p ==> block@[i] != TERMINATOR,
                p < READ_BLOCK_LEN ==> block@[p as int] == TERMINATOR,
            decreases block@.len() - p,
        {
            if block[p] == TERMINATOR {
                break ;
            }
            p = p + 1;
        }
        proof {
            assert(block@ == w.subrange(adrs as int, adrs as int + READ_BLOCK_LEN));
            assert(forall|i: int|
                adrs as int <= i < adrs as int + READ_BLOCK_LEN ==> w[i] == block@[
                    i - adrs as int]);
        }
        let piece = vstd::slice::slice_subrange(block.as_slice(), 0, p);
        collected.extend_from_slice(piece);
        proof {
            assert(collected@ =~= w.take(adrs as int + p as int));
        }
        if p < READ_BLOCK_LEN {
            proof {
                lemma_term_pos_unique(w, adrs as int + p as int);
            }
            return Ok(collected);
        }
        adrs = adrs + READ_BLOCK_LEN as u16;
    }
    proof {
        lemma_term_pos_unique(w, WINDOW_SIZE as int);
        assert(collected@ =~= w.take(term_pos(w)));
    }
    Ok(collected)
}

/// Relies on `String::from_utf8` of std: it succeeds exactly when the
/// bytes are valid UTF-8, and then the string holds their decoding.
#[verifier::external_body]
fn bytes_to_string(bytes: Vec<u8>) -> (r: Option<String>)
    ensures
        r is Some <==> valid_utf8(bytes@),
        r is Some ==> r->Some_0@ == decode_utf8(bytes@),
{
    match String::from_utf8(bytes) {
        Ok(s) => Some(s),
        Err(_) => None,
    }
}

/// Replay the stored log: scan the window for the terminator and decode
/// the bytes before it as text. A read failure is surfaced as a bus error;
/// bytes that are not valid UTF-8 are a decode failure.
pub fn replay<S: ByteStore>(store: &mut S) -> (r: Result<String, ReplayError>)
    requires
        WINDOW_SIZE <= old(store).contents().len(),
    ensures
        final(store).contents() == old(store).contents(),
        r is Ok ==> valid_utf8(log_prefix(old(store).contents())) && r->Ok_0@ == decode_utf8(
            log_prefix(old(store).contents()),
        ),
        !(r matches Err(ReplayError::Bus(_))) ==> (r is Ok <==> valid_utf8(
            log_prefix(old(store).contents()),
        )),
{
    let bytes = match replay_window(store) {
        Ok(b) => b,
        Err(e) => {
            return Err(ReplayError::Bus(e));
        },
    };
    match bytes_to_string(bytes) {
        Some(s) => Ok(s),
        None => Err(ReplayError::Decode),
    }
}

} // verus!
