//! Cursor bookkeeping for the circular window: pure address arithmetic,
//! no store access.

use vstd::arithmetic::div_mod::{lemma_small_mod, lemma_mod_sub_multiples_vanish};
use vstd::prelude::*;

use crate::WINDOW_SIZE;

verus! {

/// Move the cursor `len` bytes forward and wrap it back into the window.
/// The reduction keeps going while the sum is at least [`WINDOW_SIZE`], so
/// the result never lands on the window boundary itself.
pub fn advance(cursor: u16, len: u16) -> (r: u16)
    requires
        cursor < WINDOW_SIZE,
    ensures
        r == (cursor + len) % (WINDOW_SIZE as int),
        r < WINDOW_SIZE,
{
    let mut c: u32 = cursor as u32 + len as u32;
    while c >= WINDOW_SIZE as u32
        invariant
            c <= cursor + len,
            c as int % (WINDOW_SIZE as int) == (cursor + len) % (WINDOW_SIZE as int),
        decreases c,
    {
        proof {
            lemma_mod_sub_multiples_vanish(c as int, WINDOW_SIZE as int);
        }
        c = c - WINDOW_SIZE as u32;
    }
    proof {
        lemma_small_mod(c as nat, WINDOW_SIZE as nat);
    }
    c as u16
}

} // verus!
