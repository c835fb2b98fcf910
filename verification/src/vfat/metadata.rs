//! Directory-entry metadata: attributes, timestamps, and the entry's first
//! cluster, in their packed on-disk encodings.
use vstd::prelude::*;

verus! {

/// A date, packed as the on-disk structures keep it: bits 15..9 the year
/// since 1980, bits 8..5 the month, bits 4..0 the day.
#[derive(Debug, PartialEq, Eq, Structural, Copy, Clone)]
pub struct Date(pub u16);

/// A time of day, packed: bits 15..11 the hour, bits 10..5 the minute,
/// bits 4..0 the second halved.
#[derive(Debug, PartialEq, Eq, Structural, Copy, Clone)]
pub struct Time(pub u16);

/// The attribute byte of a directory entry.
#[derive(Debug, PartialEq, Eq, Structural, Copy, Clone)]
pub struct Attributes(pub u8);

/// A date and a time of day together.
#[derive(Debug, PartialEq, Eq, Structural, Copy, Clone)]
pub struct Timestamp {
    pub date: Date,
    pub time: Time,
}

/// The metadata block of a directory entry, fields in on-disk order.
#[derive(Debug, PartialEq, Eq, Structural, Copy, Clone)]
pub struct Metadata {
    pub attributes: Attributes,
    pub reserved: u8,
    pub tenths_creation_time: u8,
    pub creation_time: Time,
    pub creation_date: Date,
    pub last_accessed_date: Date,
    pub high_cluster_number: u16,
    pub last_modification_time: Time,
    pub last_modification_date: Date,
    pub low_cluster_number: u16,
}

impl Default for Metadata {
    /// The all-zero metadata block, as the synthetic root directory carries.
    fn default() -> (r: Metadata)
        ensures
            r == Metadata::spec_default(),
    {
        Metadata {
            attributes: Attributes(0),
            reserved: 0,
            tenths_creation_time: 0,
            creation_time: Time(0),
            creation_date: Date(0),
            last_accessed_date: Date(0),
            high_cluster_number: 0,
            last_modification_time: Time(0),
            last_modification_date: Date(0),
            low_cluster_number: 0,
        }
    }
}

impl Timestamp {
    /// The calendar year, counted from 1980 in the packed date's top bits.
    pub fn year(&self) -> (r: usize)
        ensures
            r == (self.date.0 >> 9) + 1980,
    {
        let high = self.date.0 >> 9;
        proof {
            let d = self.date.0;
            assert(d >> 9 <= 0x7F) by (bit_vector);
        }
        high as usize + 1980
    }

    /// The month, 1 to 12 on well-formed entries.
    pub fn month(&self) -> (r: u8)
        ensures
            r == (self.date.0 >> 5) as u8 & 0xF,
    {
        (self.date.0 >> 5) as u8 & 0b1111
    }

    /// The day of the month, 1 to 31 on well-formed entries.
    pub fn day(&self) -> (r: u8)
        ensures
            r == self.date.0 as u8 & 0x1F,
    {
        self.date.0 as u8 & 0b11111
    }

    /// The hour, 0 to 23 on well-formed entries.
    pub fn hour(&self) -> (r: u8)
        ensures
            r == (self.time.0 >> 11) as u8,
    {
        (self.time.0 >> 11) as u8
    }

    /// The minute, 0 to 59 on well-formed entries.
    pub fn minute(&self) -> (r: u8)
        ensures
            r == (self.time.0 >> 5) as u8 & 0x3F,
    {
        (self.time.0 >> 5) as u8 & 0b111111
    }

    /// The second, even, 0 to 58 on well-formed entries: the disk stores it
    /// halved.
    pub fn second(&self) -> (r: u8)
        ensures
            r == (self.time.0 as u8 & 0x1F) * 2,
    {
        proof {
            let t = self.time.0;
            assert((t as u8 & 0x1F) <= 0x1F) by (bit_vector);
        }
        ((self.time.0 as u8) & 0b11111) * 2
    }
}

impl Metadata {
    pub open spec fn spec_default() -> Metadata {
        Metadata {
            attributes: Attributes(0),
            reserved: 0,
            tenths_creation_time: 0,
            creation_time: Time(0),
            creation_date: Date(0),
            last_accessed_date: Date(0),
            high_cluster_number: 0,
            last_modification_time: Time(0),
            last_modification_date: Date(0),
            low_cluster_number: 0,
        }
    }

    /// The raw number of the entry's first cluster, from its split high and
    /// low halves.
    pub open spec fn spec_start_cluster(&self) -> u32 {
        (self.high_cluster_number as int * 0x1_0000 + self.low_cluster_number as int) as u32
    }

    /// The raw number of the entry's first cluster.
    pub fn start_cluster(&self) -> (r: u32)
        ensures
            r == self.spec_start_cluster(),
    {
        (self.high_cluster_number as u32) * 0x1_0000 + self.low_cluster_number as u32
    }

    /// Whether the read-only attribute bit is set.
    pub fn read_only(&self) -> (r: bool)
        ensures
            r == (self.attributes.0 & 0x01 == 0x01),
    {
        self.attributes.0 & 0x01 == 0x01
    }

    /// Whether the hidden attribute bit is set.
    pub fn hidden(&self) -> (r: bool)
        ensures
            r == (self.attributes.0 & 0x02 == 0x02),
    {
        self.attributes.0 & 0x02 == 0x02
    }

    /// When the entry was created.
    pub fn created(&self) -> (r: Timestamp)
        ensures
            r == (Timestamp { date: self.creation_date, time: self.creation_time }),
    {
        Timestamp { date: self.creation_date, time: self.creation_time }
    }

    /// When the entry was last accessed; the disk keeps no time of day for
    /// accesses.
    pub fn accessed(&self) -> (r: Timestamp)
        ensures
            r == (Timestamp { date: self.last_accessed_date, time: Time(0) }),
    {
        Timestamp { date: self.last_accessed_date, time: Time(0) }
    }

    /// When the entry was last modified.
    pub fn modified(&self) -> (r: Timestamp)
        ensures
            r == (Timestamp {
                date: self.last_modification_date,
                time: self.last_modification_time,
            }),
    {
        Timestamp { date: self.last_modification_date, time: self.last_modification_time }
    }
}

} // verus!
