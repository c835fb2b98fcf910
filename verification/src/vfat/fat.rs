//! File allocation table entries: what each cluster's 32-bit table slot says
//! about it.
use vstd::prelude::*;

use crate::vfat::cluster::Cluster;

verus! {

/// The meaning of one file allocation table entry.
#[derive(Debug, PartialEq, Eq, Structural, Copy, Clone)]
pub enum Status {
    /// The cluster is unused.
    Free,
    /// The cluster is reserved.
    Reserved,
    /// The cluster holds data and the chain continues at `.0`.
    Data(Cluster),
    /// The cluster is marked bad.
    Bad,
    /// The cluster holds data and ends its chain; `.0` is the raw end mark.
    Eoc(u32),
}

/// One raw 32-bit file allocation table entry.
#[derive(Debug, PartialEq, Eq, Structural, Copy, Clone)]
pub struct FatEntry(pub u32);

/// The status a raw table entry encodes, by its low 28 bits.
pub open spec fn spec_status(raw: u32) -> Status {
    let v = raw & 0x0FFF_FFFF;
    if v == 0 {
        Status::Free
    } else if v == 1 {
        Status::Reserved
    } else if v <= 0x0FFF_FFEF {
        Status::Data(Cluster(v))
    } else if v <= 0x0FFF_FFF6 {
        Status::Reserved
    } else if v == 0x0FFF_FFF7 {
        Status::Bad
    } else {
        Status::Eoc(v)
    }
}

impl FatEntry {
    /// Decodes this entry's status.
    pub fn status(&self) -> (r: Status)
        ensures
            r == spec_status(self.0),
    {
        let v = self.0 & 0x0FFFFFFF;
        if v == 0 {
            Status::Free
        } else if v == 1 {
            Status::Reserved
        } else if v <= 0x0FFFFFEF {
            proof {
                let raw = self.0;
                assert(v & 0x0FFF_FFFF == v) by (bit_vector)
                    requires
                        v == raw & 0x0FFFFFFFu32,
                ;
            }
            Status::Data(Cluster::from(v))
        } else if v <= 0x0FFFFFF6 {
            Status::Reserved
        } else if v == 0x0FFFFFF7 {
            Status::Bad
        } else {
            Status::Eoc(v)
        }
    }

    /// The next cluster of the chain, when this entry continues or ends one:
    /// a `Data` entry points at the next cluster, an end-of-chain entry names
    /// itself through the end mark's low bits.
    pub fn next_cluster(&self) -> (r: Option<Cluster>)
        ensures
            r == match spec_status(self.0) {
                Status::Data(c) => Some(c),
                Status::Eoc(raw) => Some(Cluster((raw & 0x0FFF_FFFF) as u32)),
                _ => Option::<Cluster>::None,
            },
    {
        match self.status() {
            Status::Data(cluster) => Some(cluster),
            Status::Eoc(cluster) => Some(Cluster::from(cluster)),
            _ => None,
        }
    }
}

/// Any masked cluster number fits in 28 bits, so the clusters `next_cluster`
/// hands out are well-formed.
pub proof fn lemma_masked_cluster_wf(raw: u32)
    ensures
        (raw & 0x0FFF_FFFF) <= 0x0FFF_FFFF,
{
    assert((raw & 0x0FFF_FFFF) <= 0x0FFF_FFFF) by (bit_vector);
}

} // verus!
