//! What the append protocol and the replay scan promise together, proved
//! over the store images that their contracts speak of.

use vstd::arithmetic::div_mod::lemma_small_mod;
use vstd::prelude::*;
use vstd::utf8::{decode_utf8, encode_utf8, encode_utf8_decode_utf8, encode_utf8_valid_utf8,
    valid_utf8};

use crate::appender::append_image;
use crate::replay::{lemma_term_pos_unique, log_prefix};
use crate::{TERMINATOR, WINDOW_SIZE};

verus! {

/// One append into a fresh window reads back exactly: for a record free of
/// terminator bytes and shorter than the window, appended at the window
/// start, the replayed prefix is the record itself.
pub proof fn lemma_fresh_append_round_trip(s: Seq<u8>, data: Seq<u8>)
    requires
        WINDOW_SIZE <= s.len(),
        data.len() < WINDOW_SIZE,
        forall|i: int| 0 <= i < data.len() ==> data[i] != TERMINATOR,
    ensures
        log_prefix(append_image(s, 0, data)) == data,
{
    let t = append_image(s, 0, data);
    let w = t.take(WINDOW_SIZE as int);
    lemma_small_mod(data.len() as nat, WINDOW_SIZE as nat);
    assert(forall|i: int| 0 <= i < data.len() ==> w[i] == data[i]);
    assert(w[data.len() as int] == TERMINATOR);
    lemma_term_pos_unique(w, data.len() as int);
    assert(w.take(data.len() as int) =~= data);
}

/// Two records appended in sequence, fitting inside the window without
/// crossing its boundary, leave one terminator exactly after both: the
/// second record overwrites the first one's terminator, the surviving
/// terminator stands at `c + |d1| + |d2|`, and the bytes from `c` up to it
/// are `d1 ++ d2` as written.
pub proof fn lemma_sequential_appends(s: Seq<u8>, c: int, d1: Seq<u8>, d2: Seq<u8>)
    requires
        WINDOW_SIZE <= s.len(),
        0 <= c,
        c + d1.len() + d2.len() < WINDOW_SIZE,
    ensures
        ({
            let t = append_image(
                append_image(s, c, d1),
                (c + d1.len()) % (WINDOW_SIZE as int),
                d2,
            );
            &&& t[c + d1.len() + d2.len()] == TERMINATOR
            &&& t.subrange(c, c + d1.len() + d2.len()) == d1 + d2
        }),
{
    lemma_small_mod((c + d1.len()) as nat, WINDOW_SIZE as nat);
    lemma_small_mod((c + d1.len() + d2.len()) as nat, WINDOW_SIZE as nat);
    let t = append_image(append_image(s, c, d1), (c + d1.len()) % (WINDOW_SIZE as int), d2);
    assert(t.subrange(c, c + d1.len() + d2.len()) =~= d1 + d2);
}

/// The replay side of two sequential appends: starting from the window
/// start with records free of terminator bytes, the replayed prefix is the
/// two records concatenated — no terminator survives between them.
pub proof fn lemma_two_appends_round_trip(s: Seq<u8>, d1: Seq<u8>, d2: Seq<u8>)
    requires
        WINDOW_SIZE <= s.len(),
        d1.len() + d2.len() < WINDOW_SIZE,
        forall|i: int| 0 <= i < d1.len() ==> d1[i] != TERMINATOR,
        forall|i: int| 0 <= i < d2.len() ==> d2[i] != TERMINATOR,
    ensures
        log_prefix(append_image(append_image(s, 0, d1), (d1.len() as int) % (WINDOW_SIZE as int), d2))
            == d1 + d2,
{
    lemma_small_mod(d1.len() as nat, WINDOW_SIZE as nat);
    lemma_small_mod((d1.len() + d2.len()) as nat, WINDOW_SIZE as nat);
    let t = append_image(append_image(s, 0, d1), (d1.len() as int) % (WINDOW_SIZE as int), d2);
    let w = t.take(WINDOW_SIZE as int);
    let both = d1 + d2;
    assert(forall|i: int| 0 <= i < both.len() ==> w[i] == both[i]);
    assert(w[both.len() as int] == TERMINATOR);
    lemma_term_pos_unique(w, both.len() as int);
    assert(w.take(both.len() as int) =~= both);
}

/// The round trip in terms of text: a record's UTF-8 bytes, appended into
/// a fresh window and replayed, decode back to the very same characters.
pub proof fn lemma_text_round_trip(s: Seq<u8>, text: Seq<char>)
    requires
        WINDOW_SIZE <= s.len(),
        encode_utf8(text).len() < WINDOW_SIZE,
        forall|i: int| 0 <= i < encode_utf8(text).len() ==> encode_utf8(text)[i] != TERMINATOR,
    ensures
        valid_utf8(log_prefix(append_image(s, 0, encode_utf8(text)))),
        decode_utf8(log_prefix(append_image(s, 0, encode_utf8(text)))) == text,
{
    lemma_fresh_append_round_trip(s, encode_utf8(text));
    encode_utf8_valid_utf8(text);
    encode_utf8_decode_utf8(text);
}

} // verus!
