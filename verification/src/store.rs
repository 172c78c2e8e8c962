//! The nonvolatile store as the log sees it: a fixed run of bytes reached
//! through bounded transactions, plus a verified in-memory instance.

use vstd::prelude::*;

verus! {

/// Largest number of data bytes one bus transaction may carry once the
/// two-byte destination address is counted in.
pub const MAX_CHUNK_LEN: usize = 30;

/// Largest number of bytes one read transaction may return.
pub const READ_BLOCK_LEN: usize = 32;

/// A transfer-level failure of the bus or device. Never retried here;
/// always surfaced to the caller unchanged.
#[derive(Clone, Copy, Debug, PartialEq, Eq, Structural)]
pub enum StoreError {
    /// The device did not acknowledge or the transfer was cut short.
    Bus,
}

/// Byte-addressable nonvolatile memory reachable only through bounded
/// transfers. `contents` is the full device image; a transaction touches
/// at most [`MAX_CHUNK_LEN`] bytes on a write and [`READ_BLOCK_LEN`] on a
/// read. A failed write may leave the addressed range in any state but
/// touches nothing outside it.
pub trait ByteStore: Sized {
    /// The bytes the device currently holds.
    spec fn contents(&self) -> Seq<u8>;

    /// The device's capacity in bytes.
    fn size(&self) -> (r: usize)
        ensures
            r as int == self.contents().len(),
    ;

    /// One write transaction: place `data` at `offset`.
    fn write_tx(&mut self, offset: u16, data: &[u8]) -> (r: Result<(), StoreError>)
        requires
            data@.len() <= MAX_CHUNK_LEN,
            offset as int + data@.len() <= old(self).contents().len(),
        ensures
            final(self).contents().len() == old(self).contents().len(),
            r is Ok ==> final(self).contents() == old(self).contents().update_subrange_with(
                offset as int,
                data@,
            ),
            forall|i: int|
                0 <= i < old(self).contents().len() && !(offset as int <= i < offset as int
                    + data@.len()) ==> final(self).contents()[i] == old(self).contents()[i],
    ;

    /// One read transaction: fetch `len` bytes starting at `offset`.
    fn read_tx(&mut self, offset: u16, len: usize) -> (r: Result<Vec<u8>, StoreError>)
        requires
            len <= READ_BLOCK_LEN,
            offset as int + len as int <= old(self).contents().len(),
        ensures
            final(self).contents() == old(self).contents(),
            r is Ok ==> r->Ok_0@ == old(self).contents().subrange(
                offset as int,
                offset as int + len as int,
            ),
    ;
}

/// An in-memory store: every transaction succeeds and behaves exactly as
/// the trait states. Useful for exercising the log without a device.
pub struct MemStore {
    data: Vec<u8>,
}

impl MemStore {
    /// A store of `size` bytes, all holding `fill`.
    pub fn new(size: usize, fill: u8) -> (r: MemStore)
        ensures
            r.contents().len() == size,
            forall|i: int| 0 <= i < size ==> r.contents()[i] == fill,
    {
        let mut data: Vec<u8> = Vec::new();
        let mut k: usize = 0;
        while k < size
            invariant
                k <= size,
                data@.len() == k,
                forall|i: int| 0 <= i < k ==> data@[i] == fill,
            decreases size - k,
        {
            data.push(fill);
            k = k + 1;
        }
        MemStore { data }
    }

    /// The byte at `i`, for inspecting what a sequence of appends left behind.
    pub fn byte_at(&self, i: usize) -> (r: u8)
        requires
            i < self.contents().len(),
        ensures
            r == self.contents()[i as int],
    {
        self.data[i]
    }

}

impl ByteStore for MemStore {
    closed spec fn contents(&self) -> Seq<u8> {
        self.data@
    }

    fn size(&self) -> (r: usize) {
        self.data.len()
    }

    fn write_tx(&mut self, offset: u16, data: &[u8]) -> (r: Result<(), StoreError>) {
        let mut j: usize = 0;
        while j < data.len()
            invariant
                j <= data@.len(),
                data@.len() <= MAX_CHUNK_LEN,
                offset as int + data@.len() <= self.data@.len(),
                self.data@.len() == old(self).data@.len(),
                forall|i: int|
                    0 <= i < self.data@.len() && !(offset as int <= i < offset as int + j)
                        ==> self.data@[i] == old(self).data@[i],
                forall|i: int|
                    offset as int <= i < offset as int + j ==> self.data@[i] == data@[
                        i - offset as int],
            decreases data@.len() - j,
        {
            let b = data[j];
            self.data.set(offset as usize + j, b);
            j = j + 1;
        }
        proof {
            assert(self.data@ =~= old(self).data@.update_subrange_with(offset as int, data@));
        }
        Ok(())
    }

    fn read_tx(&mut self, offset: u16, len: usize) -> (r: Result<Vec<u8>, StoreError>) {
        let mut out: Vec<u8> = Vec::new();
        let mut j: usize = 0;
        while j < len
            invariant
                j <= len,
                len <= READ_BLOCK_LEN,
                offset as int + len as int <= self.data@.len(),
                out@.len() == j,
                self.data@ == old(self).data@,
                forall|i: int| 0 <= i < j ==> out@[i] == self.data@[offset as int + i],
            decreases len - j,
        {
            let b = self.data[offset as usize + j];
            out.push(b);
            j = j + 1;
        }
        proof {
            assert(out@ =~= self.data@.subrange(offset as int, offset as int + len as int));
        }
        Ok(out)
    }
}

/// A store whose bus never answers: every transaction fails with
/// [`StoreError::Bus`] and nothing is ever written. Lets callers exercise
/// the failure paths without a device.
pub struct BrokenStore {
    size: usize,
}

impl BrokenStore {
    /// A dead store of `size` addressable bytes.
    pub fn new(size: usize) -> (r: BrokenStore)
        ensures
            r.contents().len() == size,
    {
        BrokenStore { size }
    }
}

impl ByteStore for BrokenStore {
    closed spec fn contents(&self) -> Seq<u8> {
        Seq::new(self.size as nat, |i: int| 0u8)
    }

    fn size(&self) -> (r: usize) {
        self.size
    }

    fn write_tx(&mut self, offset: u16, data: &[u8]) -> (r: Result<(), StoreError>) {
        Err(StoreError::Bus)
    }

    fn read_tx(&mut self, offset: u16, len: usize) -> (r: Result<Vec<u8>, StoreError>) {
        Err(StoreError::Bus)
    }
}

} // verus!
