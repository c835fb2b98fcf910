//! Cluster numbers: the unit the volume's data region is addressed in.
use vstd::prelude::*;

verus! {

/// A cluster number, with the four reserved top bits of the raw 32-bit field
/// already masked off.
#[derive(PartialEq, Eq, Structural, Debug, Copy, Clone)]
pub struct Cluster(pub u32);

impl Cluster {
    /// Every cluster value carries at most 28 significant bits.
    pub open spec fn wf(&self) -> bool {
        self.0 <= 0x0FFF_FFFF
    }

    /// The cluster a raw on-disk 32-bit field names: its low 28 bits.
    pub fn from(raw_num: u32) -> (r: Cluster)
        ensures
            r.0 == raw_num & 0x0FFF_FFFF,
            r.wf(),
    {
        proof {
            assert(raw_num & 0x0FFF_FFFF <= 0x0FFF_FFFF) by (bit_vector);
            assert(raw_num & !(0xFu32 << 28) == raw_num & 0x0FFF_FFFF) by (bit_vector);
        }
        Cluster(raw_num & !(0xFu32 << 28))
    }

    /// Whether this is a data cluster: clusters 0 and 1 are reserved.
    pub fn is_valid(&self) -> (r: bool)
        ensures
            r == (self.0 >= 2),
    {
        self.0 >= 2
    }

    /// The raw cluster number.
    pub fn id(&self) -> (r: u32)
        ensures
            r == self.0,
    {
        self.0
    }

    /// The cluster's index in the data region: data clusters are numbered
    /// from 2.
    pub fn index(&self) -> (r: u32)
        requires
            self.0 >= 2,
        ensures
            r == self.0 - 2,
    {
        self.0 - 2
    }
}

} // verus!
