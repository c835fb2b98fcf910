//! An open file: a name, its metadata, and a cursor into its cluster chain.
use vstd::prelude::*;

use crate::device::BlockDevice;
use crate::io::{IoError, SeekFrom};
use crate::vfat::cluster::Cluster;
use crate::vfat::metadata::Metadata;
use crate::vfat::volume::VFat;

verus! {

/// A file of the volume, with a read cursor.
pub struct File {
    /// The file's name.
    pub name: String,
    /// The file's metadata block.
    pub metadata: Metadata,
    /// The cluster the file's chain starts at.
    pub start_cluster: Cluster,
    /// The file's length in bytes.
    pub size: u32,
    /// The cursor: how many bytes have been read or seeked past.
    pub offset: u32,
    /// The cluster the cursor lies in, or `None` past the chain's end.
    pub curr_cluster: Option<Cluster>,
}

impl File {
    /// The file invariant: the cursor never passes the end, and cluster
    /// numbers are well-formed.
    pub open spec fn wf(&self) -> bool {
        &&& self.offset <= self.size
        &&& self.start_cluster.wf()
        &&& match self.curr_cluster {
            Some(c) => c.wf(),
            None => true,
        }
    }

    /// A freshly opened file: cursor at the start, current cluster the
    /// chain's first.
    pub fn new(name: String, metadata: Metadata, start_cluster: Cluster, size: u32) -> (r: File)
        requires
            start_cluster.wf(),
        ensures
            r.name@ == name@,
            r.metadata == metadata,
            r.start_cluster == start_cluster,
            r.size == size,
            r.offset == 0,
            r.curr_cluster == Some(start_cluster),
            r.wf(),
    {
        File { name, metadata, start_cluster, size, offset: 0, curr_cluster: Some(start_cluster) }
    }

    /// The file's length in bytes.
    pub fn size(&self) -> (r: u64)
        ensures
            r == self.size,
    {
        self.size as u64
    }

    /// Reads from the cursor into the front of `buf`: as many bytes as `buf`
    /// holds or the file still has, whichever is fewer. On success that many
    /// bytes were read and the cursor advanced by the same amount; the name,
    /// metadata and size are untouched, as is the volume's configuration and
    /// data.
    #[verifier::loop_isolation(false)]
    pub fn read<D: BlockDevice>(&mut self, fs: &mut VFat<D>, buf: &mut Vec<u8>) -> (r: Result<
        usize,
        IoError,
    >)
        requires
            old(self).wf(),
            old(fs).wf(),
        ensures
            final(self).wf(),
            final(fs).wf(),
            final(fs).config() == old(fs).config(),
            final(fs).device.sectors() == old(fs).device.sectors(),
            final(self).name@ == old(self).name@,
            final(self).metadata == old(self).metadata,
            final(self).start_cluster == old(self).start_cluster,
            final(self).size == old(self).size,
            final(buf)@.len() == old(buf)@.len(),
            match r {
                Ok(n) => {
                    &&& n == if old(buf)@.len() <= old(self).size - old(self).offset {
                        old(buf)@.len() as int
                    } else {
                        old(self).size - old(self).offset
                    }
                    &&& final(self).offset == old(self).offset + n
                },
                Err(_) => true,
            },
    {
        let size_left: usize = (self.size - self.offset) as usize;
        let can: usize = if buf.len() <= size_left {
            buf.len()
        } else {
            size_left
        };
        let bpc: usize = 512 * fs.sectors_per_cluster as usize;

        let mut bytes_read: usize = 0;
        while bytes_read < can
            invariant
                self.wf(),
                fs.wf(),
                fs.config() == old(fs).config(),
                fs.device.sectors() == old(fs).device.sectors(),
                self.name@ == old(self).name@,
                self.metadata == old(self).metadata,
                self.start_cluster == old(self).start_cluster,
                self.size == old(self).size,
                bpc == fs.spec_bytes_per_cluster(),
                bytes_read <= can,
                can <= buf@.len(),
                can - bytes_read <= self.size - self.offset,
                buf@.len() == old(buf)@.len(),
                self.offset == old(self).offset + bytes_read,
            decreases can - bytes_read,
        {
            let cluster = match self.curr_cluster {
                Some(c) => c,
                None => {
                    return Err(IoError::UnexpectedEof);
                },
            };
            if !cluster.is_valid() {
                return Err(IoError::InvalidData);
            }
            let within: usize = (self.offset as usize) % bpc;
            let want: usize = if can - bytes_read <= bpc - within {
                can - bytes_read
            } else {
                bpc - within
            };
            let mut tmp: Vec<u8> = vec![0u8; want];
            match fs.read_cluster(cluster, within, &mut tmp) {
                Ok(_) => {},
                Err(e) => {
                    return Err(e);
                },
            }
            let mut j: usize = 0;
            while j < want
                invariant
                    j <= want,
                    bytes_read + want <= can,
                    can <= buf@.len(),
                    tmp@.len() == want,
                    buf@.len() == old(buf)@.len(),
                decreases want - j,
            {
                let byte = tmp[j];
                buf[bytes_read + j] = byte;
                j = j + 1;
            }
            bytes_read = bytes_read + want;
            self.offset = self.offset + want as u32;

            if (self.offset as usize) % bpc == 0 {
                let entry = match fs.fat_entry(cluster) {
                    Ok(e) => e,
                    Err(e) => {
                        return Err(e);
                    },
                };
                self.curr_cluster = entry.next_cluster();
                proof {
                    crate::vfat::fat::lemma_masked_cluster_wf(entry.0);
                    crate::vfat::fat::lemma_masked_cluster_wf(entry.0 & 0x0FFF_FFFF);
                }
            }
        }
        Ok(can)
    }

    /// Moves the cursor to `pos` and returns the new position from the start
    /// of the file. A target before the start or at or past the end of the
    /// file is `InvalidInput` and moves nothing; on success the cursor lands
    /// exactly on the resolved target.
    #[verifier::loop_isolation(false)]
    pub fn seek<D: BlockDevice>(&mut self, fs: &mut VFat<D>, pos: SeekFrom) -> (r: Result<
        u64,
        IoError,
    >)
        requires
            old(self).wf(),
            old(fs).wf(),
        ensures
            final(self).wf(),
            final(fs).wf(),
            final(fs).config() == old(fs).config(),
            final(fs).device.sectors() == old(fs).device.sectors(),
            final(self).name@ == old(self).name@,
            final(self).metadata == old(self).metadata,
            final(self).start_cluster == old(self).start_cluster,
            final(self).size == old(self).size,
            ({
                let target = match pos {
                    SeekFrom::Start(o) => o as int,
                    SeekFrom::End(d) => old(self).size + d,
                    SeekFrom::Current(d) => old(self).offset + d,
                };
                &&& match r {
                    Ok(n) => n == target && 0 <= target < old(self).size && final(self).offset
                        == target,
                    Err(_) => *final(self) == *old(self),
                }
                &&& !(0 <= target < old(self).size) ==> r == Err::<u64, IoError>(
                    IoError::InvalidInput,
                )
            }),
    {
        let new_offset: u32 = match pos {
            SeekFrom::Start(o) => {
                if o >= self.size as u64 {
                    return Err(IoError::InvalidInput);
                }
                o as u32
            },
            SeekFrom::End(d) => match resolve_offset(self.size, self.size, d) {
                Some(t) => t,
                None => {
                    return Err(IoError::InvalidInput);
                },
            },
            SeekFrom::Current(d) => match resolve_offset(self.offset, self.size, d) {
                Some(t) => t,
                None => {
                    return Err(IoError::InvalidInput);
                },
            },
        };
        let bpc: u64 = 512 * fs.sectors_per_cluster as u64;
        let hops: u32 = (new_offset as u64 / bpc) as u32;

        let mut cur = self.start_cluster;
        let mut i: u32 = 0;
        while i < hops
            invariant
                fs.wf(),
                fs.config() == old(fs).config(),
                fs.device.sectors() == old(fs).device.sectors(),
                cur.wf(),
                i <= hops,
            decreases hops - i,
        {
            let entry = match fs.fat_entry(cur) {
                Ok(e) => e,
                Err(e) => {
                    return Err(e);
                },
            };
            cur = match entry.next_cluster() {
                Some(c) => c,
                None => {
                    return Err(IoError::UnexpectedEof);
                },
            };
            proof {
                crate::vfat::fat::lemma_masked_cluster_wf(entry.0);
                crate::vfat::fat::lemma_masked_cluster_wf(entry.0 & 0x0FFF_FFFF);
            }
            i = i + 1;
        }
        self.offset = new_offset;
        self.curr_cluster = Some(cur);
        Ok(new_offset as u64)
    }

}

/// Resolves a relative seek: `base + delta` when that lands inside the file
/// (at least 0, strictly before `size`), `None` otherwise.
fn resolve_offset(base: u32, size: u32, delta: i64) -> (r: Option<u32>)
    ensures
        match r {
            Some(t) => t == base + delta && 0 <= base + delta < size,
            None => !(0 <= base + delta < size),
        },
{
    if delta >= 0 {
        let t: u64 = base as u64 + delta as u64;
        if t >= size as u64 {
            return None;
        }
        Some(t as u32)
    } else {
        if delta < -(base as i64) {
            return None;
        }
        let t: i64 = base as i64 + delta;
        if t >= size as i64 {
            return None;
        }
        Some(t as u32)
    }
}

} // verus!
