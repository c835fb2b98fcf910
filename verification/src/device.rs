//! Sector-addressed storage, as the file-system layer sees it.
//!
//! A block device is a sequence of sectors of bytes. Reading a sector copies
//! its prefix into the caller's buffer and never changes the stored data. The
//! in-memory device here backs the file-system logic during testing and is
//! the model every driver-backed device must refine.
use vstd::prelude::*;

use crate::io::IoError;

verus! {

/// Sector-addressed read access to stored bytes.
pub trait BlockDevice: Sized {
    /// The stored data: one byte sequence per sector.
    spec fn sectors(&self) -> Seq<Seq<u8>>;

    /// Reads sector `n` into the front of `buf`: up to `buf.len()` bytes, and
    /// never more than the sector holds. On success the number of bytes
    /// copied is returned and the rest of `buf` is untouched; on failure
    /// `buf` is untouched. Reading never changes the stored data.
    fn read_sector(&mut self, n: u64, buf: &mut Vec<u8>) -> (r: Result<usize, IoError>)
        ensures
            final(self).sectors() == old(self).sectors(),
            match r {
                Ok(b) => {
                    &&& (n as int) < old(self).sectors().len()
                    &&& b == if old(buf)@.len() <= old(self).sectors()[n as int].len() {
                        old(buf)@.len()
                    } else {
                        old(self).sectors()[n as int].len()
                    }
                    &&& final(buf)@ == old(self).sectors()[n as int].take(b as int) + old(
                        buf,
                    )@.skip(b as int)
                },
                Err(_) => final(buf)@ == old(buf)@,
            },
    ;
}

/// A block device held entirely in memory.
pub struct MemDevice {
    /// The sectors, in order.
    pub data: Vec<Vec<u8>>,
}

impl MemDevice {
    /// A device over the given sectors.
    pub fn new(data: Vec<Vec<u8>>) -> (r: MemDevice)
        ensures
            r.sectors() == data.deep_view(),
    {
        MemDevice { data }
    }
}

impl BlockDevice for MemDevice {
    open spec fn sectors(&self) -> Seq<Seq<u8>> {
        self.data.deep_view()
    }

    fn read_sector(&mut self, n: u64, buf: &mut Vec<u8>) -> (r: Result<usize, IoError>) {
        if n >= self.data.len() as u64 {
            return Err(IoError::InvalidInput);
        }
        let idx = n as usize;
        let sector = &self.data[idx];
        let b = if buf.len() <= sector.len() {
            buf.len()
        } else {
            sector.len()
        };
        let mut i: usize = 0;
        while i < b
            invariant
                i <= b,
                b <= buf.len(),
                b <= sector.len(),
                buf@.len() == old(buf)@.len(),
                sector == &self.data[idx as int],
                self == old(self),
                idx < self.data@.len(),
                forall|j: int| 0 <= j < i ==> buf@[j] == sector@[j],
                forall|j: int| i <= j < buf@.len() ==> buf@[j] == old(buf)@[j],
            decreases b - i,
        {
            let byte = sector[i];
            buf[i] = byte;
            i = i + 1;
        }
        proof {
            assert(self.sectors()[n as int] == sector@);
            assert(buf@ =~= self.sectors()[n as int].take(b as int) + old(buf)@.skip(b as int));
        }
        Ok(b)
    }
}

} // verus!
