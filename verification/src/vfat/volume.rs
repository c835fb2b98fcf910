//! The mounted FAT32 volume: locates the file system through the partition
//! table, and reads clusters and cluster chains out of the data region.
use vstd::prelude::*;

use vstd::arithmetic::mul::lemma_mul_upper_bound;

use crate::device::BlockDevice;
use crate::io::IoError;
use crate::mbr::{spec_partition, MasterBootRecord};
use crate::util::{le16_at, le32_at, read_u32_le};
use crate::vfat::cluster::Cluster;
use crate::vfat::ebpb::BiosParameterBlock;
use crate::vfat::error::Error;
use crate::vfat::fat::{spec_status, FatEntry, Status};

verus! {

/// A handle to a mounted FAT32 volume on block device `D`.
pub struct VFat<D: BlockDevice> {
    /// The device the volume lives on.
    pub device: D,
    /// Bytes per logical sector; this reader mounts 512-byte-sector volumes.
    pub bytes_per_sector: u16,
    /// Sectors per cluster, at least 1.
    pub sectors_per_cluster: u8,
    /// Sectors per file allocation table.
    pub sectors_per_fat: u32,
    /// The device sector the first file allocation table starts at.
    pub fat_start_sector: u64,
    /// The device sector the data region (cluster 2) starts at.
    pub data_start_sector: u64,
    /// The cluster the root directory starts at.
    pub root_dir_cluster: Cluster,
}

impl<D: BlockDevice> VFat<D> {
    /// The volume invariant: 512-byte sectors, at least one sector per
    /// cluster, and layout fields small enough that no sector computation
    /// can overflow.
    pub open spec fn wf(&self) -> bool {
        &&& self.bytes_per_sector == 512
        &&& self.sectors_per_cluster >= 1
        &&& self.root_dir_cluster.wf()
        &&& self.fat_start_sector <= 0x1_0000_0000_0000
        &&& self.data_start_sector <= 0x1_0000_0000_0000
    }

    /// Bytes in one cluster.
    pub open spec fn spec_bytes_per_cluster(&self) -> int {
        512 * self.sectors_per_cluster as int
    }

    /// The device sector where data cluster `c` begins.
    pub open spec fn cluster_start_sector(&self, c: Cluster) -> int {
        self.data_start_sector + (c.0 - 2) * self.sectors_per_cluster as int
    }

    /// The byte at offset `off` of data cluster `c`, as the device holds it.
    pub open spec fn cluster_byte(&self, c: Cluster, off: int) -> u8 {
        self.device.sectors()[self.cluster_start_sector(c) + off / 512][off % 512]
    }

    /// The bytes of data cluster `c`, in order, as the device holds them.
    pub open spec fn cluster_seq(&self, c: Cluster) -> Seq<u8> {
        Seq::new(self.spec_bytes_per_cluster() as nat, |k: int| self.cluster_byte(c, k))
    }

    /// The bytes of the clusters of `chain`, concatenated in chain order.
    pub open spec fn chain_bytes(&self, chain: Seq<Cluster>) -> Seq<u8>
        decreases chain.len(),
    {
        if chain.len() == 0 {
            Seq::empty()
        } else {
            self.chain_bytes(chain.drop_last()) + self.cluster_seq(chain.last())
        }
    }

    /// The raw file allocation table entry for cluster `c`: entry `c.0` of
    /// the table, 128 four-byte entries per sector.
    pub open spec fn spec_fat_entry(&self, c: Cluster) -> u32 {
        le32_at(
            self.device.sectors()[self.fat_start_sector + c.0 as int / 128].take(512),
            (c.0 as int % 128) * 4,
        )
    }

    /// A proper cluster chain from `start`: each link's table entry points at
    /// the next, the last link's entry ends the chain, and every link is a
    /// well-formed data cluster.
    pub open spec fn is_chain_from(&self, chain: Seq<Cluster>, start: Cluster) -> bool {
        &&& chain.len() >= 1
        &&& chain[0] == start
        &&& forall|i: int|
            0 <= i < chain.len() - 1 ==> spec_status(self.spec_fat_entry(#[trigger] chain[i]))
                == Status::Data(chain[i + 1])
        &&& spec_status(self.spec_fat_entry(chain.last())) is Eoc
        &&& forall|i: int| 0 <= i < chain.len() ==> (#[trigger] chain[i]).wf() && chain[i].0 >= 2
    }

    /// The non-device configuration of the volume, for stating that reads
    /// leave it alone.
    pub open spec fn config(&self) -> (u16, u8, u32, u64, u64, Cluster) {
        (
            self.bytes_per_sector,
            self.sectors_per_cluster,
            self.sectors_per_fat,
            self.fat_start_sector,
            self.data_start_sector,
            self.root_dir_cluster,
        )
    }

    /// Mounts the volume: reads the master boot record, takes the first
    /// partition when its type is FAT32 (0xB or 0xC), reads the partition's
    /// parameter block, and computes the table and data layout.
    ///
    /// Errors: `Mbr` when the boot record cannot be read or parsed, `NotFound`
    /// when the first partition is not FAT32, `BadSignature`/`Io` from the
    /// parameter block, and `Io(InvalidData)` when the block describes a
    /// geometry this reader does not mount (sectors not 512 bytes, or no
    /// sectors per cluster).
    pub fn from(device: D) -> (r: Result<VFat<D>, Error>)
        ensures
            match r {
                Ok(v) => ({
                    let s0 = device.sectors()[0].take(512);
                    let part = spec_partition(s0, 446);
                    let se = device.sectors()[part.relative_sector as int].take(512);
                    &&& v.wf()
                    &&& v.device.sectors() == device.sectors()
                    &&& (part.partition_type == 0xB || part.partition_type == 0xC)
                    &&& v.bytes_per_sector == 512
                    &&& le16_at(se, 11) == 512
                    &&& v.sectors_per_cluster == se[13]
                    &&& v.sectors_per_fat == le32_at(se, 36)
                    &&& v.fat_start_sector == part.relative_sector + le16_at(se, 14)
                    &&& v.data_start_sector == v.fat_start_sector + le32_at(se, 36) as int * se[16]
                    &&& v.root_dir_cluster.0 == le32_at(se, 44) & 0x0FFF_FFFF
                }),
                Err(_) => true,
            },
    {
        let mut device = device;
        let mbr = match MasterBootRecord::from(&mut device) {
            Ok(m) => m,
            Err(e) => {
                return Err(Error::Mbr(e));
            },
        };
        let partition = mbr.get_partition(0);
        if partition.partition_type != 0xB && partition.partition_type != 0xC {
            return Err(Error::NotFound);
        }
        let partition_start: u64 = partition.relative_sector as u64;

        let ebpb = match BiosParameterBlock::from(&mut device, partition_start) {
            Ok(b) => b,
            Err(e) => {
                return Err(e);
            },
        };
        if ebpb.bytes_per_sector != 512 || ebpb.sectors_per_cluster == 0 {
            return Err(Error::Io(IoError::InvalidData));
        }

        proof {
            lemma_mul_upper_bound(
                ebpb.sector_per_fat_32 as int,
                0xFFFF_FFFF,
                ebpb.number_of_fat as int,
                0xFF,
            );
        }
        let fat_start_sector: u64 = partition_start + ebpb.reserved_sectors as u64;
        let data_start_sector: u64 = fat_start_sector + ebpb.sector_per_fat_32 as u64
            * ebpb.number_of_fat as u64;
        Ok(
            VFat {
                device,
                bytes_per_sector: ebpb.bytes_per_sector,
                sectors_per_cluster: ebpb.sectors_per_cluster,
                sectors_per_fat: ebpb.sector_per_fat_32,
                fat_start_sector,
                data_start_sector,
                root_dir_cluster: Cluster::from(ebpb.root_dir_cluster_number),
            },
        )
    }

    /// Reads from data cluster `cluster`, starting `offset` bytes into the
    /// cluster, into the front of `buf`: as many bytes as `buf` holds or the
    /// cluster still has past `offset`, whichever is fewer. On success every
    /// byte written equals the device's byte at that position of the cluster
    /// and the rest of `buf` is untouched.
    #[verifier::loop_isolation(false)]
    pub fn read_cluster(&mut self, cluster: Cluster, offset: usize, buf: &mut Vec<u8>) -> (r:
        Result<usize, IoError>)
        requires
            old(self).wf(),
            cluster.wf(),
            cluster.0 >= 2,
            offset < old(self).spec_bytes_per_cluster(),
        ensures
            final(self).wf(),
            final(self).config() == old(self).config(),
            final(self).device.sectors() == old(self).device.sectors(),
            final(buf)@.len() == old(buf)@.len(),
            match r {
                Ok(n) => {
                    &&& n == if old(buf)@.len() <= old(self).spec_bytes_per_cluster() - offset {
                        old(buf)@.len() as int
                    } else {
                        old(self).spec_bytes_per_cluster() - offset
                    }
                    &&& forall|i: int|
                        0 <= i < n ==> final(buf)@[i] == old(self).cluster_byte(
                            cluster,
                            offset + i,
                        )
                    &&& forall|i: int| n <= i < final(buf)@.len() ==> final(buf)@[i] == old(buf)@[i]
                },
                Err(_) => true,
            },
    {
        proof {
            lemma_mul_upper_bound(
                cluster.0 - 2,
                0x0FFF_FFFD,
                self.sectors_per_cluster as int,
                0xFF,
            );
        }
        let bps: usize = 512;
        let spc: usize = self.sectors_per_cluster as usize;
        let bpc: usize = bps * spc;
        let start_sector: u64 = self.data_start_sector + (cluster.id() - 2) as u64
            * self.sectors_per_cluster as u64;
        let total: usize = if buf.len() <= bpc - offset {
            buf.len()
        } else {
            bpc - offset
        };

        let mut bytes_read: usize = 0;
        let mut cur_sector: u64 = start_sector + (offset / bps) as u64;
        let mut cur_offset: usize = offset % bps;
        proof {
            vstd::arithmetic::div_mod::lemma_fundamental_div_mod(offset as int, 512);
            assert((offset as int) / 512 < self.sectors_per_cluster as int) by (nonlinear_arith)
                requires
                    offset < 512 * self.sectors_per_cluster as int,
                    offset >= 0,
            ;
        }
        while bytes_read < total
            invariant
                self.wf(),
                self.config() == old(self).config(),
                self.device.sectors() == old(self).device.sectors(),
                total <= buf@.len(),
                total + offset <= bpc,
                bpc == old(self).spec_bytes_per_cluster(),
                spc == self.sectors_per_cluster as int,
                buf@.len() == old(buf)@.len(),
                bytes_read <= total,
                start_sector == old(self).cluster_start_sector(cluster),
                start_sector <= 0x2_0000_0000_0000,
                cur_sector >= start_sector,
                cur_sector <= start_sector + spc as u64,
                bytes_read < total ==> cur_offset < 512 && offset + bytes_read == (cur_sector
                    - start_sector) * 512 + cur_offset,
                forall|i: int|
                    0 <= i < bytes_read ==> buf@[i] == old(self).cluster_byte(
                        cluster,
                        offset + i,
                    ),
                forall|i: int| bytes_read <= i < buf@.len() ==> buf@[i] == old(buf)@[i],
            decreases total - bytes_read,
        {
            let mut tmp: Vec<u8> = vec![0u8; 512];
            match self.device.read_sector(cur_sector, &mut tmp) {
                Ok(b) => {
                    if b != 512 {
                        return Err(IoError::UnexpectedEof);
                    }
                },
                Err(e) => {
                    return Err(e);
                },
            }
            proof {
                assert(tmp@ =~= self.device.sectors()[cur_sector as int].take(512));
            }
            let n: usize = if 512 - cur_offset <= total - bytes_read {
                512 - cur_offset
            } else {
                total - bytes_read
            };
            let ghost cur_off0 = cur_offset as int;
            let ghost br0 = bytes_read as int;
            let mut j: usize = 0;
            while j < n
                invariant
                    j <= n,
                    n <= 512 - cur_offset,
                    n <= total - bytes_read,
                    cur_offset + n <= 512,
                    tmp@.len() == 512,
                    tmp@ == self.device.sectors()[cur_sector as int].take(512),
                    buf@.len() == old(buf)@.len(),
                    bytes_read + n <= total,
                    forall|i: int|
                        0 <= i < bytes_read ==> buf@[i] == old(self).cluster_byte(
                            cluster,
                            offset + i,
                        ),
                    forall|i: int|
                        bytes_read <= i < bytes_read + j ==> buf@[i] == tmp@[cur_offset + (i
                            - bytes_read)],
                    forall|i: int| bytes_read + j <= i < buf@.len() ==> buf@[i] == old(buf)@[i],
                decreases n - j,
            {
                let byte = tmp[cur_offset + j];
                buf[bytes_read + j] = byte;
                j = j + 1;
            }
            proof {
                let q = cur_sector - start_sector;
                assert forall|i: int| br0 <= i < br0 + n implies buf@[i] == old(
                    self,
                ).cluster_byte(cluster, offset + i) by {
                    let off = offset + i;
                    assert(off == q * 512 + (cur_off0 + (i - br0)));
                    vstd::arithmetic::div_mod::lemma_fundamental_div_mod_converse(
                        off,
                        512,
                        q,
                        cur_off0 + (i - br0),
                    );
                }
                if br0 + n < total {
                    assert(n == 512 - cur_off0);
                    assert(offset + br0 + n == (q + 1) * 512);
                    assert(q + 1 <= spc as int) by (nonlinear_arith)
                        requires
                            (q + 1) * 512 == offset + br0 + n,
                            offset + br0 + n <= 512 * spc as int,
                    ;
                } else {
                    assert(q + 1 <= spc as int) by (nonlinear_arith)
                        requires
                            q * 512 + cur_off0 == offset + br0,
                            cur_off0 < 512,
                            cur_off0 >= 0,
                            q >= 0,
                            offset + br0 < 512 * spc as int,
                    ;
                }
            }
            bytes_read = bytes_read + n;
            cur_sector = cur_sector + 1;
            cur_offset = 0;
        }
        Ok(total)
    }

    /// Reads the raw file allocation table entry for `cluster`: entry
    /// `cluster.0` of the table, 128 entries per sector. A cluster that is
    /// not a data cluster (number 0 or 1) is `InvalidData`.
    pub fn fat_entry(&mut self, cluster: Cluster) -> (r: Result<FatEntry, IoError>)
        requires
            old(self).wf(),
            cluster.wf(),
        ensures
            final(self).wf(),
            final(self).config() == old(self).config(),
            final(self).device.sectors() == old(self).device.sectors(),
            match r {
                Ok(e) => cluster.0 >= 2 && e.0 == old(self).spec_fat_entry(cluster),
                Err(e) => cluster.0 < 2 ==> e == IoError::InvalidData,
            },
            cluster.0 < 2 ==> r == Err::<FatEntry, IoError>(IoError::InvalidData),
    {
        if !cluster.is_valid() {
            return Err(IoError::InvalidData);
        }
        let sector: u64 = self.fat_start_sector + (cluster.id() / 128) as u64;
        let idx: usize = (cluster.id() % 128) as usize * 4;

        let mut tmp: Vec<u8> = vec![0u8; 512];
        match self.device.read_sector(sector, &mut tmp) {
            Ok(b) => {
                if b != 512 {
                    return Err(IoError::UnexpectedEof);
                }
            },
            Err(e) => {
                return Err(e);
            },
        }
        proof {
            assert(tmp@ =~= old(self).device.sectors()[sector as int].take(512));
        }
        let value = read_u32_le(&tmp, idx);
        Ok(FatEntry(value))
    }

    /// Reads one whole cluster and appends it to `buf`: on success exactly
    /// one cluster's worth of the device's bytes, in order.
    #[verifier::loop_isolation(false)]
    pub fn append_result(&mut self, cluster: Cluster, buf: &mut Vec<u8>) -> (r: Result<
        usize,
        IoError,
    >)
        requires
            old(self).wf(),
            cluster.wf(),
            cluster.0 >= 2,
            old(buf)@.len() + old(self).spec_bytes_per_cluster() <= usize::MAX,
        ensures
            final(self).wf(),
            final(self).config() == old(self).config(),
            final(self).device.sectors() == old(self).device.sectors(),
            match r {
                Ok(n) => {
                    &&& n == old(self).spec_bytes_per_cluster()
                    &&& final(buf)@ == old(buf)@ + old(self).cluster_seq(cluster)
                },
                Err(_) => final(buf)@ == old(buf)@,
            },
    {
        let bpc: usize = 512 * self.sectors_per_cluster as usize;
        let mut chunk: Vec<u8> = vec![0u8; bpc];
        let n = match self.read_cluster(cluster, 0, &mut chunk) {
            Ok(n) => n,
            Err(e) => {
                return Err(e);
            },
        };
        assert(n == bpc);
        assert(forall|k: int| 0 <= k < bpc ==> chunk@[k] == old(self).cluster_byte(cluster, k));
        let mut i: usize = 0;
        while i < bpc
            invariant
                i <= bpc,
                chunk@.len() == bpc,
                buf@.len() == old(buf)@.len() + i,
                forall|k: int| 0 <= k < old(buf)@.len() ==> buf@[k] == old(buf)@[k],
                forall|j: int|
                    old(buf)@.len() <= j < buf@.len() ==> buf@[j] == chunk@[j - old(buf)@.len()],
            decreases bpc - i,
        {
            buf.push(chunk[i]);
            i = i + 1;
        }
        proof {
            assert(buf@ =~= old(buf)@ + old(self).cluster_seq(cluster));
        }
        Ok(bpc)
    }

    /// Reads the whole cluster chain that starts at `start`, appending every
    /// cluster's bytes to `buf` in chain order, and returns how many bytes
    /// were appended.
    ///
    /// A chain must run through `Data` entries to an end-of-chain entry; any
    /// other entry status, and a chain longer than the table has entries (a
    /// cycle), is `InvalidData`.
    #[verifier::loop_isolation(false)]
    pub fn read_chain(&mut self, start: Cluster, buf: &mut Vec<u8>) -> (r: Result<usize, IoError>)
        requires
            old(self).wf(),
            start.wf(),
        ensures
            final(self).wf(),
            final(self).config() == old(self).config(),
            final(self).device.sectors() == old(self).device.sectors(),
            match r {
                Ok(n) => exists|chain: Seq<Cluster>|
                    {
                        &&& #[trigger] old(self).is_chain_from(chain, start)
                        &&& n == chain.len() * old(self).spec_bytes_per_cluster()
                        &&& final(buf)@ == old(buf)@ + old(self).chain_bytes(chain)
                    },
                Err(_) => true,
            },
    {
        let ghost bpc = self.spec_bytes_per_cluster();
        let max_clusters: u64 = self.sectors_per_fat as u64 * 128;
        let mut cur_cluster = start;
        let mut cluster_num: u64 = 0;
        let mut bytes_read: usize = 0;
        let ghost mut chain: Seq<Cluster> = Seq::empty();

        while cluster_num < max_clusters
            invariant
                self.wf(),
                self.config() == old(self).config(),
                self.device.sectors() == old(self).device.sectors(),
                cur_cluster.wf(),
                cluster_num <= max_clusters,
                chain.len() == cluster_num,
                bytes_read == cluster_num * bpc,
                bpc == old(self).spec_bytes_per_cluster(),
                buf@.len() == old(buf)@.len() + bytes_read,
                buf@ == old(buf)@ + old(self).chain_bytes(chain),
                chain.len() > 0 ==> chain[0] == start,
                chain.len() == 0 ==> cur_cluster == start,
                forall|i: int|
                    0 <= i < chain.len() - 1 ==> spec_status(
                        old(self).spec_fat_entry(#[trigger] chain[i]),
                    ) == Status::Data(chain[i + 1]),
                chain.len() > 0 ==> spec_status(old(self).spec_fat_entry(chain.last()))
                    == Status::Data(cur_cluster),
                forall|i: int|
                    0 <= i < chain.len() ==> (#[trigger] chain[i]).wf() && chain[i].0 >= 2,
            decreases max_clusters - cluster_num,
        {
            if buf.len() > usize::MAX - 512 * self.sectors_per_cluster as usize {
                return Err(IoError::InvalidData);
            }
            let entry = match self.fat_entry(cur_cluster) {
                Ok(e) => e,
                Err(e) => {
                    return Err(e);
                },
            };
            match entry.status() {
                Status::Data(next_cluster) => {
                    let n = match self.append_result(cur_cluster, buf) {
                        Ok(n) => n,
                        Err(e) => {
                            return Err(e);
                        },
                    };
                    bytes_read = bytes_read + n;
                    proof {
                        let prev = chain;
                        chain = chain.push(cur_cluster);
                        assert(chain.drop_last() =~= prev);
                        assert(chain.last() == cur_cluster);
                        assert((cluster_num + 1) * bpc == cluster_num * bpc + bpc)
                            by (nonlinear_arith);
                    }
                    cluster_num = cluster_num + 1;
                    cur_cluster = next_cluster;
                },
                Status::Eoc(_) => {
                    let n = match self.append_result(cur_cluster, buf) {
                        Ok(n) => n,
                        Err(e) => {
                            return Err(e);
                        },
                    };
                    bytes_read = bytes_read + n;
                    proof {
                        let prev = chain;
                        chain = chain.push(cur_cluster);
                        assert(chain.drop_last() =~= prev);
                        assert(chain.last() == cur_cluster);
                        assert((cluster_num + 1) * bpc == cluster_num * bpc + bpc)
                            by (nonlinear_arith);
                        assert(old(self).is_chain_from(chain, start));
                        assert(bytes_read == chain.len() * old(self).spec_bytes_per_cluster());
                        assert(buf@ == old(buf)@ + old(self).chain_bytes(chain));
                    }
                    return Ok(bytes_read);
                },
                _ => {
                    return Err(IoError::InvalidData);
                },
            }
        }
        // a chain longer than the table has entries must loop back on itself
        Err(IoError::InvalidData)
    }
}

} // verus!
