//! Chunked transfer discipline: an arbitrary-length payload is split into
//! bus-transaction-sized pieces written to consecutive store offsets.

use vstd::prelude::*;
use vstd::seq_lib::*;

use crate::store::{ByteStore, StoreError, MAX_CHUNK_LEN};

verus! {

/// How many transactions a payload of `len` bytes needs: `ceil(len / MAX_CHUNK_LEN)`.
pub open spec fn chunk_count(len: int) -> int {
    (len + MAX_CHUNK_LEN - 1) / (MAX_CHUNK_LEN as int)
}

/// The payload bytes belonging to chunk `i` of `data`.
pub open spec fn chunk_data(data: Seq<u8>, i: int) -> Seq<u8> {
    data.subrange(
        i * MAX_CHUNK_LEN,
        if (i + 1) * MAX_CHUNK_LEN <= data.len() {
            (i + 1) * MAX_CHUNK_LEN
        } else {
            data.len() as int
        },
    )
}

/// Split `data` into the chunks the bus will carry, in issue order: chunk
/// `i` goes to store offset `offset + i * MAX_CHUNK_LEN` (the sum of all
/// earlier chunk lengths), every chunk is at most [`MAX_CHUNK_LEN`] bytes,
/// and the chunks concatenated in order are exactly `data`.
pub fn plan_chunks(offset: u16, data: &[u8]) -> (r: Vec<(u16, Vec<u8>)>)
    requires
        offset as int + data@.len() <= 0x10000,
    ensures
        r@.len() == chunk_count(data@.len() as int),
        forall|i: int|
            0 <= i < r@.len() ==> (#[trigger] r@[i]).0 == offset + i * MAX_CHUNK_LEN,
        forall|i: int| 0 <= i < r@.len() ==> (#[trigger] r@[i]).1@ == chunk_data(data@, i),
        forall|i: int| 0 <= i < r@.len() ==> (#[trigger] r@[i]).1@.len() <= MAX_CHUNK_LEN,
        r@.map_values(|c: (u16, Vec<u8>)| c.1@).flatten() == data@,
{
    let mut r: Vec<(u16, Vec<u8>)> = Vec::new();
    let mut pos: usize = 0;
    while pos < data.len()
        invariant
            offset as int + data@.len() <= 0x10000,
            pos == r@.len() * MAX_CHUNK_LEN,
            pos < data@.len() + MAX_CHUNK_LEN,
            forall|i: int|
                0 <= i < r@.len() ==> (#[trigger] r@[i]).0 == offset + i * MAX_CHUNK_LEN,
            forall|i: int| 0 <= i < r@.len() ==> (#[trigger] r@[i]).1@ == chunk_data(data@, i),
            forall|i: int| 0 <= i < r@.len() ==> (#[trigger] r@[i]).1@.len() <= MAX_CHUNK_LEN,
            r@.map_values(|c: (u16, Vec<u8>)| c.1@).flatten() == data@.take(
                if pos <= data@.len() {
                    pos as int
                } else {
                    data@.len() as int
                },
            ),
        decreases data@.len() + MAX_CHUNK_LEN - pos,
    {
        let end = if pos + MAX_CHUNK_LEN <= data.len() {
            pos + MAX_CHUNK_LEN
        } else {
            data.len()
        };
        let mut piece: Vec<u8> = Vec::new();
        let mut j: usize = pos;
        while j < end
            invariant
                pos <= j <= end <= data@.len(),
                piece@ == data@.subrange(pos as int, j as int),
            decreases end - j,
        {
            let b = data[j];
            piece.push(b);
            proof {
                assert(piece@ =~= data@.subrange(pos as int, j + 1));
            }
            j = j + 1;
        }
        let ghost old_r = r@;
        let ghost k = r@.len() as int;
        r.push((offset + pos as u16, piece));
        proof {
            let f = |c: (u16, Vec<u8>)| c.1@;
            let piece_seq = data@.subrange(pos as int, end as int);
            assert(r@.map_values(f) =~= old_r.map_values(f).push(piece_seq));
            old_r.map_values(f).lemma_flatten_push(piece_seq);
            assert(r@.map_values(f).flatten() == old_r.map_values(f).flatten() + piece_seq);
            assert(data@.take(pos as int) + piece_seq =~= data@.take(end as int));
            assert(r@[k].1@ == chunk_data(data@, k));
            assert(data@.take(end as int) =~= data@.take(
                if pos + MAX_CHUNK_LEN <= data@.len() {
                    (pos + MAX_CHUNK_LEN) as int
                } else {
                    data@.len() as int
                },
            ));
        }
        pos = pos + MAX_CHUNK_LEN;
    }
    proof {
        let len = data@.len() as int;
        let k = r@.len() as int;
        assert(len <= k * MAX_CHUNK_LEN < len + MAX_CHUNK_LEN);
        assert(k == chunk_count(len)) by (nonlinear_arith)
            requires
                len <= k * MAX_CHUNK_LEN < len + MAX_CHUNK_LEN,
                k >= 0,
                len >= 0,
        ;
        assert(data@.take(len) =~= data@);
    }
    r
}

/// Write `data` at `offset` through bounded transactions, in ascending
/// order, stopping at the first failure. On success the store holds `data`
/// at `[offset, offset + data.len())` and is unchanged elsewhere; a failure
/// is surfaced as-is and may leave that range partially updated, but bytes
/// outside it are never touched.
pub fn write_chunked<S: ByteStore>(store: &mut S, offset: u16, data: &[u8]) -> (r: Result<
    (),
    StoreError,
>)
    requires
        offset as int + data@.len() <= old(store).contents().len(),
        old(store).contents().len() <= 0x10000,
    ensures
        final(store).contents().len() == old(store).contents().len(),
        r is Ok ==> final(store).contents() == old(store).contents().update_subrange_with(
            offset as int,
            data@,
        ),
        forall|i: int|
            0 <= i < old(store).contents().len() && !(offset as int <= i < offset as int
                + data@.len()) ==> final(store).contents()[i] == old(store).contents()[i],
{
    let plan = plan_chunks(offset, data);
    let ghost pre = store.contents();
    let mut k: usize = 0;
    while k < plan.len()
        invariant
            plan@.len() == chunk_count(data@.len() as int),
            forall|i: int|
                0 <= i < plan@.len() ==> (#[trigger] plan@[i]).0 == offset + i * MAX_CHUNK_LEN,
            forall|i: int| 0 <= i < plan@.len() ==> (#[trigger] plan@[i]).1@ == chunk_data(data@, i),
            forall|i: int| 0 <= i < plan@.len() ==> (#[trigger] plan@[i]).1@.len() <= MAX_CHUNK_LEN,
            k <= plan@.len(),
            pre == old(store).contents(),
            offset as int + data@.len() <= pre.len() <= 0x10000,
            store.contents().len() == pre.len(),
            store.contents() == pre.update_subrange_with(
                offset as int,
                data@.take(
                    if k * MAX_CHUNK_LEN <= data@.len() {
                        k * MAX_CHUNK_LEN
                    } else {
                        data@.len() as int
                    },
                ),
            ),
            forall|i: int|
                0 <= i < pre.len() && !(offset as int <= i < offset as int + data@.len())
                    ==> store.contents()[i] == pre[i],
        decreases plan@.len() - k,
    {
        let ghost before = store.contents();
        let ghost ki = k as int;
        let ghost done = if ki * MAX_CHUNK_LEN <= data@.len() {
            ki * MAX_CHUNK_LEN
        } else {
            data@.len() as int
        };
        proof {
            assert(ki * MAX_CHUNK_LEN < data@.len());
            assert((ki + 1) * MAX_CHUNK_LEN == ki * MAX_CHUNK_LEN + MAX_CHUNK_LEN);
        }
        let piece: &Vec<u8> = &plan[k].1;
        let dest: u16 = plan[k].0;
        match store.write_tx(dest, piece.as_slice()) {
            Ok(()) => {},
            Err(e) => {
                proof {
                    assert(ki * MAX_CHUNK_LEN + plan@[ki].1@.len() <= data@.len());
                    assert(forall|i: int|
                        0 <= i < pre.len() && !(offset as int <= i < offset as int + data@.len())
                            ==> store.contents()[i] == before[i]);
                }
                return Err(e);
            },
        }
        proof {
            let new_done = if (ki + 1) * MAX_CHUNK_LEN <= data@.len() {
                (ki + 1) * MAX_CHUNK_LEN
            } else {
                data@.len() as int
            };
            assert(store.contents() =~= pre.update_subrange_with(
                offset as int,
                data@.take(new_done),
            ));
        }
        k = k + 1;
    }
    proof {
        assert(plan@.len() * MAX_CHUNK_LEN >= data@.len());
        assert(data@.take(data@.len() as int) =~= data@);
    }
    Ok(())
}

/// Lay out one bus transaction for the device: the destination offset as a
/// big-endian two-byte header, then the payload. The device reassembles
/// the offset as `256 * frame[0] + frame[1]`.
pub fn frame_transaction(offset: u16, data: &[u8]) -> (r: Vec<u8>)
    requires
        data@.len() <= MAX_CHUNK_LEN,
    ensures
        r@.len() == 2 + data@.len(),
        256 * r@[0] + r@[1] == offset,
        r@.subrange(2, r@.len() as int) == data@,
{
    let mut r: Vec<u8> = Vec::new();
    r.push((offset / 256) as u8);
    r.push((offset % 256) as u8);
    let mut j: usize = 0;
    while j < data.len()
        invariant
            j <= data@.len(),
            r@.len() == 2 + j,
            256 * r@[0] + r@[1] == offset,
            r@.subrange(2, r@.len() as int) == data@.take(j as int),
        decreases data@.len() - j,
    {
        let b = data[j];
        r.push(b);
        proof {
            assert(r@.subrange(2, r@.len() as int) =~= data@.take(j + 1));
        }
        j = j + 1;
    }
    proof {
        assert(data@.take(data@.len() as int) =~= data@);
    }
    r
}

} // verus!
