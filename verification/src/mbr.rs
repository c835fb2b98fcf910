//! The master boot record: the first sector of the disk, holding the
//! partition table the file system is found through.
//!
//! Field offsets follow the on-disk record layout the boot code reads:
//! 436 bytes of bootstrap code, a 10-byte disk identifier, four 16-byte
//! partition entries at offset 446, and the 0xAA55 signature at offset 510.
use vstd::prelude::*;

use crate::device::BlockDevice;
use crate::io::IoError;
use crate::util::{copy_range, le16_at, le32_at, read_u16_le, read_u32_le};

verus! {

/// A cylinder/head/sector address, kept raw: the reader never interprets it.
#[derive(Debug, PartialEq, Eq, Structural, Copy, Clone)]
pub struct CHS {
    pub head: u8,
    pub sector_and_high_bits_cylinder: u8,
    pub cylinder: u8,
}

/// One entry of the partition table.
#[derive(Debug, PartialEq, Eq, Structural, Copy, Clone)]
pub struct PartitionEntry {
    pub boot_indicator: u8,
    pub starting_chs: CHS,
    pub ending_chs: CHS,
    pub partition_type: u8,
    /// The partition's first sector, counted from the start of the disk.
    pub relative_sector: u32,
    pub sectors: u32,
}

/// The CHS triple at offset `off` of sector bytes `s`.
pub open spec fn spec_chs(s: Seq<u8>, off: int) -> CHS {
    CHS { head: s[off], sector_and_high_bits_cylinder: s[off + 1], cylinder: s[off + 2] }
}

/// The partition entry at offset `off` of sector bytes `s`.
pub open spec fn spec_partition(s: Seq<u8>, off: int) -> PartitionEntry {
    PartitionEntry {
        boot_indicator: s[off],
        starting_chs: spec_chs(s, off + 1),
        ending_chs: spec_chs(s, off + 4),
        partition_type: s[off + 7],
        relative_sector: le32_at(s, off + 8),
        sectors: le32_at(s, off + 12),
    }
}

/// Why reading the master boot record failed.
#[derive(Debug, PartialEq, Eq, Structural, Copy, Clone)]
pub enum Error {
    /// The device failed, or handed back fewer than 512 bytes.
    Io(IoError),
    /// Partition `.0` (0-indexed) holds an invalid boot indicator: not 0 and
    /// not 0x80.
    UnknownBootIndicator(u8),
    /// The record's magic signature is not 0xAA55.
    BadSignature,
}

/// The master boot record, parsed.
pub struct MasterBootRecord {
    /// The 10-byte disk identifier at offset 436.
    pub disk_id: Vec<u8>,
    /// The four partition entries, in table order.
    pub partitions: Vec<PartitionEntry>,
    /// The magic signature; 0xAA55 on every record this reader accepts.
    pub signature: u16,
}

impl MasterBootRecord {
    pub open spec fn wf(&self) -> bool {
        &&& self.disk_id@.len() == 10
        &&& self.partitions@.len() == 4
    }

    /// What a successful parse of sector bytes `s` holds.
    pub open spec fn parsed_from(&self, s: Seq<u8>) -> bool {
        &&& self.disk_id@ == s.subrange(436, 446)
        &&& self.partitions@.len() == 4
        &&& forall|i: int|
            0 <= i < 4 ==> (#[trigger] self.partitions@[i]) == spec_partition(s, 446 + 16 * i)
        &&& self.signature == le16_at(s, 510)
    }

    /// Reads and parses the master boot record from sector 0 of `device`.
    ///
    /// Returns `BadSignature` when the magic signature is not 0xAA55,
    /// `UnknownBootIndicator(n)` when partition `n` is the first whose boot
    /// indicator is neither 0 nor 0x80, and `Io` when the device fails or
    /// sector 0 holds fewer than 512 bytes.
    #[verifier::loop_isolation(false)]
    pub fn from<D: BlockDevice>(device: &mut D) -> (r: Result<MasterBootRecord, Error>)
        ensures
            final(device).sectors() == old(device).sectors(),
            ({
                let s = old(device).sectors()[0];
                &&& match r {
                    Ok(m) => {
                        &&& old(device).sectors().len() > 0
                        &&& s.len() >= 512
                        &&& m.wf()
                        &&& m.parsed_from(s.take(512))
                        &&& le16_at(s.take(512), 510) == 0xAA55
                        &&& forall|i: int|
                            0 <= i < 4 ==> ((#[trigger] m.partitions@[i]).boot_indicator == 0
                                || m.partitions@[i].boot_indicator == 0x80)
                    },
                    Err(Error::BadSignature) => {
                        &&& old(device).sectors().len() > 0
                        &&& s.len() >= 512
                        &&& le16_at(s.take(512), 510) != 0xAA55
                    },
                    Err(Error::UnknownBootIndicator(n)) => {
                        &&& old(device).sectors().len() > 0
                        &&& s.len() >= 512
                        &&& n < 4
                        &&& le16_at(s.take(512), 510) == 0xAA55
                        &&& spec_partition(s.take(512), 446 + 16 * (n as int)).boot_indicator != 0
                        &&& spec_partition(s.take(512), 446 + 16 * (n as int)).boot_indicator
                            != 0x80
                    },
                    Err(Error::Io(_)) => true,
                }
            }),
    {
        let mut sector: Vec<u8> = vec![0u8; 512];
        let bytes = match device.read_sector(0, &mut sector) {
            Ok(b) => b,
            Err(e) => {
                return Err(Error::Io(e));
            },
        };
        if bytes != 512 {
            return Err(Error::Io(IoError::UnexpectedEof));
        }
        let ghost s = old(device).sectors()[0].take(512);
        proof {
            assert(sector@ =~= s);
        }

        let signature = read_u16_le(&sector, 510);
        if signature != 0xAA55 {
            return Err(Error::BadSignature);
        }

        let mut partitions: Vec<PartitionEntry> = Vec::new();
        let mut i: usize = 0;
        while i < 4
            invariant
                i <= 4,
                sector@ == s,
                s.len() == 512,
                partitions@.len() == i,
                forall|j: int|
                    0 <= j < i ==> (#[trigger] partitions@[j]) == spec_partition(s, 446 + 16 * j),
                forall|j: int|
                    0 <= j < i ==> ((#[trigger] partitions@[j]).boot_indicator == 0
                        || partitions@[j].boot_indicator == 0x80),
            decreases 4 - i,
        {
            let off = 446 + 16 * i;
            let entry = PartitionEntry {
                boot_indicator: sector[off],
                starting_chs: CHS {
                    head: sector[off + 1],
                    sector_and_high_bits_cylinder: sector[off + 2],
                    cylinder: sector[off + 3],
                },
                ending_chs: CHS {
                    head: sector[off + 4],
                    sector_and_high_bits_cylinder: sector[off + 5],
                    cylinder: sector[off + 6],
                },
                partition_type: sector[off + 7],
                relative_sector: read_u32_le(&sector, off + 8),
                sectors: read_u32_le(&sector, off + 12),
            };
            if entry.boot_indicator != 0x80 && entry.boot_indicator != 0 {
                return Err(Error::UnknownBootIndicator(i as u8));
            }
            partitions.push(entry);
            i = i + 1;
        }

        let disk_id = copy_range(&sector, 436, 10);
        Ok(MasterBootRecord { disk_id, partitions, signature })
    }

    /// The partition table entry at index `idx` of 4.
    pub fn get_partition(&self, idx: usize) -> (r: &PartitionEntry)
        requires
            self.wf(),
            idx < 4,
        ensures
            *r == self.partitions@[idx as int],
    {
        &self.partitions[idx]
    }
}

} // verus!
