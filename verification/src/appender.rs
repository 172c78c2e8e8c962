//! The append path: encode a record at the cursor through chunked writes,
//! advance the cursor inside the window, and mark the new end of the log
//! with a terminator byte.

use vstd::prelude::*;
use vstd::string::StringSliceAdditionalSpecFns;

use crate::chunk::write_chunked;
use crate::cursor::advance;
use crate::replay::{log_prefix, replay, ReplayError};
use crate::store::{ByteStore, StoreError, READ_BLOCK_LEN};
use crate::{TERMINATOR, WINDOW_SIZE};
use vstd::utf8::{decode_utf8, valid_utf8};

verus! {

/// The store image after `data` lands at `cursor`: a write that would run
/// past the window boundary is split there and its tail starts again at
/// offset 0, so record bytes never leave the window.
pub open spec fn wrap_write(s: Seq<u8>, cursor: int, data: Seq<u8>) -> Seq<u8> {
    if cursor + data.len() <= WINDOW_SIZE {
        s.update_subrange_with(cursor, data)
    } else {
        s.update_subrange_with(cursor, data.take(WINDOW_SIZE - cursor)).update_subrange_with(
            0,
            data.skip(WINDOW_SIZE - cursor),
        )
    }
}

/// The store image after one whole append at `cursor`: the record's bytes,
/// wrapped at the window boundary, then the terminator at the new cursor.
pub open spec fn append_image(s: Seq<u8>, cursor: int, data: Seq<u8>) -> Seq<u8> {
    wrap_write(s, cursor, data).update(
        (cursor + data.len()) % (WINDOW_SIZE as int),
        TERMINATOR,
    )
}

/// The persistent circular log: a store reached through bounded
/// transactions and the offset where the next record will begin.
pub struct FramLog<S: ByteStore> {
    store: S,
    cursor: u16,
}

impl<S: ByteStore> FramLog<S> {
    /// The bytes the underlying store holds.
    pub closed spec fn contents(&self) -> Seq<u8> {
        self.store.contents()
    }

    /// The offset inside the window where the next record will begin.
    pub closed spec fn cursor(&self) -> int {
        self.cursor as int
    }

    /// The log is usable: the cursor lies inside the window and the store
    /// is large enough to hold the window within its 16-bit address space.
    pub open spec fn wf(&self) -> bool {
        &&& 0 <= self.cursor() < WINDOW_SIZE
        &&& WINDOW_SIZE <= self.contents().len() <= 0x10000
    }

    /// Start a log over `store` with the cursor at the window start.
    pub fn new(store: S) -> (r: FramLog<S>)
        requires
            WINDOW_SIZE <= store.contents().len() <= 0x10000,
        ensures
            r.wf(),
            r.cursor() == 0,
            r.contents() == store.contents(),
    {
        FramLog { store, cursor: 0 }
    }

    /// The current cursor offset.
    pub fn position(&self) -> (r: u16)
        ensures
            r as int == self.cursor(),
    {
        self.cursor
    }

    /// The underlying store's capacity in bytes.
    pub fn size(&self) -> (r: usize)
        ensures
            r as int == self.contents().len(),
    {
        self.store.size()
    }

    /// Read a span of the store back, in transactions of at most
    /// [`READ_BLOCK_LEN`] bytes; the first failure aborts the rest.
    pub fn read_bytes(&mut self, offset: u16, len: usize) -> (r: Result<Vec<u8>, StoreError>)
        requires
            old(self).wf(),
            offset as int + len as int <= old(self).contents().len(),
        ensures
            final(self).wf(),
            final(self).contents() == old(self).contents(),
            final(self).cursor() == old(self).cursor(),
            r is Ok ==> r->Ok_0@ == old(self).contents().subrange(
                offset as int,
                offset as int + len as int,
            ),
    {
        let mut out: Vec<u8> = Vec::new();
        let mut done: usize = 0;
        while done < len
            invariant
                self.wf(),
                done <= len,
                offset as int + len as int <= self.store.contents().len() <= 0x10000,
                self.store.contents() == old(self).store.contents(),
                self.cursor == old(self).cursor,
                out@ == self.store.contents().subrange(offset as int, offset as int + done as int),
            decreases len - done,
        {
            let step = if len - done < READ_BLOCK_LEN {
                len - done
            } else {
                READ_BLOCK_LEN
            };
            let block = match self.store.read_tx(offset + done as u16, step) {
                Ok(b) => b,
                Err(e) => {
                    return Err(e);
                },
            };
            out.extend_from_slice(block.as_slice());
            proof {
                assert(out@ =~= self.store.contents().subrange(
                    offset as int,
                    offset as int + done as int + step as int,
                ));
            }
            done = done + step;
        }
        Ok(out)
    }

    /// Give the store back, for reading the log out by other means.
    pub fn into_store(self) -> (r: S)
        ensures
            r.contents() == self.contents(),
    {
        self.store
    }

    /// Append one record of raw bytes. The record is written at the
    /// cursor, split at the window boundary if it would cross it; the
    /// cursor advances by the record's length, wrapping inside the window,
    /// and a terminator byte is written at the new cursor. The cursor
    /// advances even when a write fails; the first bus failure aborts the
    /// rest of the append and is surfaced as-is.
    pub fn append_bytes(&mut self, data: &[u8]) -> (r: Result<(), StoreError>)
        requires
            old(self).wf(),
            data@.len() < WINDOW_SIZE,
        ensures
            final(self).wf(),
            final(self).contents().len() == old(self).contents().len(),
            final(self).cursor() == (old(self).cursor() + data@.len()) % (WINDOW_SIZE as int),
            r is Ok ==> final(self).contents() == append_image(
                old(self).contents(),
                old(self).cursor(),
                data@,
            ),
            forall|i: int|
                WINDOW_SIZE <= i < old(self).contents().len() ==> final(self).contents()[i] == old(
                    self,
                ).contents()[i],
    {
        let len16: u16 = data.len() as u16;
        let head_room: usize = (WINDOW_SIZE - self.cursor) as usize;
        let write_result: Result<(), StoreError> = if data.len() <= head_room {
            write_chunked(&mut self.store, self.cursor, data)
        } else {
            let head = vstd::slice::slice_subrange(data, 0, head_room);
            let tail = vstd::slice::slice_subrange(data, head_room, data.len());
            match write_chunked(&mut self.store, self.cursor, head) {
                Ok(()) => write_chunked(&mut self.store, 0, tail),
                Err(e) => Err(e),
            }
        };
        let ghost mid = self.store.contents();
        let new_cursor = advance(self.cursor, len16);
        self.cursor = new_cursor;
        match write_result {
            Ok(()) => {},
            Err(e) => {
                return Err(e);
            },
        }
        proof {
            assert(mid =~= wrap_write(old(self).contents(), old(self).cursor(), data@));
        }
        let mut term: Vec<u8> = Vec::new();
        term.push(TERMINATOR);
        match write_chunked(&mut self.store, new_cursor, term.as_slice()) {
            Ok(()) => {},
            Err(e) => {
                return Err(e);
            },
        }
        proof {
            assert(self.store.contents() =~= append_image(
                old(self).contents(),
                old(self).cursor(),
                data@,
            ));
        }
        Ok(())
    }

    /// Append one text record: its UTF-8 bytes, then the terminator.
    pub fn append(&mut self, text: &str) -> (r: Result<(), StoreError>)
        requires
            old(self).wf(),
            text.spec_bytes().len() < WINDOW_SIZE,
        ensures
            final(self).wf(),
            final(self).contents().len() == old(self).contents().len(),
            final(self).cursor() == (old(self).cursor() + text.spec_bytes().len()) % (
            WINDOW_SIZE as int),
            r is Ok ==> final(self).contents() == append_image(
                old(self).contents(),
                old(self).cursor(),
                text.spec_bytes(),
            ),
            forall|i: int|
                WINDOW_SIZE <= i < old(self).contents().len() ==> final(self).contents()[i] == old(
                    self,
                ).contents()[i],
    {
        self.append_bytes(text.as_bytes())
    }

    /// Replay the stored log from the window start: the text before the
    /// first terminator. Reads the store; writes nothing.
    pub fn replay(&mut self) -> (r: Result<String, ReplayError>)
        requires
            old(self).wf(),
        ensures
            final(self).wf(),
            final(self).contents() == old(self).contents(),
            final(self).cursor() == old(self).cursor(),
            r is Ok ==> valid_utf8(log_prefix(old(self).contents())) && r->Ok_0@ == decode_utf8(
                log_prefix(old(self).contents()),
            ),
            !(r matches Err(ReplayError::Bus(_))) ==> (r is Ok <==> valid_utf8(
                log_prefix(old(self).contents()),
            )),
    {
        replay(&mut self.store)
    }
}

} // verus!
