//! Directories: 32-byte on-disk records, regular and long-file-name, and the
//! iterator that assembles them into entries.
use vstd::prelude::*;

use vstd::string::StrSliceExecFns;
use vstd::string::StringExecFns;

use crate::device::BlockDevice;
use crate::io::IoError;
use crate::util::{copy_range, le16_at, le32_at, read_u16_le, read_u32_le};
use crate::vfat::cluster::Cluster;
use crate::vfat::entry::Entry;
use crate::vfat::file::File;
use crate::vfat::metadata::{Attributes, Date, Metadata, Time};
use crate::vfat::volume::VFat;

verus! {

/// A directory of the volume.
pub struct Dir {
    /// The cluster the directory's record chain starts at.
    pub cluster: Cluster,
    /// The directory's name; empty for the synthetic root.
    pub name: String,
    /// The directory's metadata block; all zero for the synthetic root.
    pub metadata: Metadata,
}

/// The metadata block at offset `off + 11` of a 32-byte record based at
/// `off`, as `Metadata` lays it out.
pub open spec fn spec_metadata_at(s: Seq<u8>, off: int) -> Metadata {
    Metadata {
        attributes: Attributes(s[off + 11]),
        reserved: s[off + 12],
        tenths_creation_time: s[off + 13],
        creation_time: Time(le16_at(s, off + 14)),
        creation_date: Date(le16_at(s, off + 16)),
        last_accessed_date: Date(le16_at(s, off + 18)),
        high_cluster_number: le16_at(s, off + 20),
        last_modification_time: Time(le16_at(s, off + 22)),
        last_modification_date: Date(le16_at(s, off + 24)),
        low_cluster_number: le16_at(s, off + 26),
    }
}

/// A regular (short-name) directory record, parsed.
pub struct VFatRegularDirEntry {
    /// The 8-byte name field, space padded.
    pub file_name: Vec<u8>,
    /// The 3-byte extension field, space padded.
    pub file_ext: Vec<u8>,
    /// The record's metadata block.
    pub metadata: Metadata,
    /// The entry's size in bytes; zero for directories.
    pub size: u32,
}

impl VFatRegularDirEntry {
    /// Parses the regular record at byte offset `off`.
    pub fn parse(data: &Vec<u8>, off: usize) -> (r: VFatRegularDirEntry)
        requires
            off + 32 <= data@.len(),
        ensures
            r.file_name@ == data@.subrange(off as int, off + 8),
            r.file_ext@ == data@.subrange(off + 8, off + 11),
            r.metadata == spec_metadata_at(data@, off as int),
            r.size == le32_at(data@, off + 28),
    {
        // the exec length, a usize, bounds the offsets
        let _n: usize = data.len();
        VFatRegularDirEntry {
            file_name: copy_range(data, off, 8),
            file_ext: copy_range(data, off + 8, 3),
            metadata: Metadata {
                attributes: Attributes(data[off + 11]),
                reserved: data[off + 12],
                tenths_creation_time: data[off + 13],
                creation_time: Time(read_u16_le(data, off + 14)),
                creation_date: Date(read_u16_le(data, off + 16)),
                last_accessed_date: Date(read_u16_le(data, off + 18)),
                high_cluster_number: read_u16_le(data, off + 20),
                last_modification_time: Time(read_u16_le(data, off + 22)),
                last_modification_date: Date(read_u16_le(data, off + 24)),
                low_cluster_number: read_u16_le(data, off + 26),
            },
            size: read_u32_le(data, off + 28),
        }
    }
}

/// A long-file-name record, parsed: thirteen UTF-16 name units spread over
/// three fields.
pub struct VFatLfnDirEntry {
    /// The record's position in the name, in its low five bits.
    pub sequence: u8,
    /// Name units 1 to 5.
    pub name: Vec<u16>,
    /// The attribute byte; 0x0F marks a long-file-name record.
    pub attributes: u8,
    pub entry_type: u8,
    pub checksum: u8,
    /// Name units 6 to 11.
    pub name_2: Vec<u16>,
    pub reserved: u16,
    /// Name units 12 and 13.
    pub name_3: Vec<u16>,
}

impl VFatLfnDirEntry {
    /// Parses the long-file-name record at byte offset `off`.
    pub fn parse(data: &Vec<u8>, off: usize) -> (r: VFatLfnDirEntry)
        requires
            off + 32 <= data@.len(),
        ensures
            r.sequence == data@[off as int],
            r.name@.len() == 5,
            r.name_2@.len() == 6,
            r.name_3@.len() == 2,
            forall|k: int| 0 <= k < 5 ==> r.name@[k] == le16_at(data@, off + 1 + 2 * k),
            forall|k: int| 0 <= k < 6 ==> r.name_2@[k] == le16_at(data@, off + 14 + 2 * k),
            forall|k: int| 0 <= k < 2 ==> r.name_3@[k] == le16_at(data@, off + 28 + 2 * k),
            r.attributes == data@[off + 11],
            r.entry_type == data@[off + 12],
            r.checksum == data@[off + 13],
            r.reserved == le16_at(data@, off + 26),
    {
        // the exec length, a usize, bounds the offsets
        let _n: usize = data.len();
        let mut name: Vec<u16> = Vec::new();
        let mut name_2: Vec<u16> = Vec::new();
        let mut name_3: Vec<u16> = Vec::new();
        let mut k: usize = 0;
        while k < 5
            invariant
                k <= 5,
                off + 32 <= data@.len(),
                name@.len() == k,
                forall|i: int| 0 <= i < k ==> name@[i] == le16_at(data@, off + 1 + 2 * i),
            decreases 5 - k,
        {
            // the exec length, a usize, bounds the offsets
            let _n: usize = data.len();
            name.push(read_u16_le(data, off + 1 + 2 * k));
            k = k + 1;
        }
        let mut k: usize = 0;
        while k < 6
            invariant
                k <= 6,
                off + 32 <= data@.len(),
                name_2@.len() == k,
                forall|i: int| 0 <= i < k ==> name_2@[i] == le16_at(data@, off + 14 + 2 * i),
            decreases 6 - k,
        {
            // the exec length, a usize, bounds the offsets
            let _n: usize = data.len();
            name_2.push(read_u16_le(data, off + 14 + 2 * k));
            k = k + 1;
        }
        let mut k: usize = 0;
        while k < 2
            invariant
                k <= 2,
                off + 32 <= data@.len(),
                name_3@.len() == k,
                forall|i: int| 0 <= i < k ==> name_3@[i] == le16_at(data@, off + 28 + 2 * i),
            decreases 2 - k,
        {
            // the exec length, a usize, bounds the offsets
            let _n: usize = data.len();
            name_3.push(read_u16_le(data, off + 28 + 2 * k));
            k = k + 1;
        }
        VFatLfnDirEntry {
            sequence: data[off],
            name,
            attributes: data[off + 11],
            entry_type: data[off + 12],
            checksum: data[off + 13],
            name_2,
            reserved: read_u16_le(data, off + 26),
            name_3,
        }
    }
}

/// The two bytes that classify a record before it is parsed further.
#[derive(Debug, PartialEq, Eq, Structural, Copy, Clone)]
pub struct VFatUnknownDirEntry {
    /// The record's first byte: 0xE5 for deleted, 0x00 for end of listing.
    pub entry_type: u8,
    /// The attribute byte at offset 11.
    pub attributes: u8,
}

impl VFatUnknownDirEntry {
    /// Reads the classifying bytes of the record at byte offset `off`.
    pub fn parse(data: &Vec<u8>, off: usize) -> (r: VFatUnknownDirEntry)
        requires
            off + 32 <= data@.len(),
        ensures
            r.entry_type == data@[off as int],
            r.attributes == data@[off + 11],
    {
        // the exec length, a usize, bounds the offsets
        let _n: usize = data.len();
        VFatUnknownDirEntry { entry_type: data[off], attributes: data[off + 11] }
    }

    /// Whether the record is deleted or unused.
    pub fn is_deleted_or_unused(&self) -> (r: bool)
        ensures
            r == (self.entry_type == 0xE5),
    {
        self.entry_type == 0xE5
    }

    /// Whether the record marks the end of the listing: everything from here
    /// on is unused.
    pub fn prev_is_last_entry(&self) -> (r: bool)
        ensures
            r == (self.entry_type == 0x00),
    {
        self.entry_type == 0x00
    }

    /// Whether the record describes a subdirectory.
    pub fn is_regular_directory(&self) -> (r: bool)
        ensures
            r == (self.attributes & 0x10 == 0x10),
    {
        self.attributes & 0x10 == 0x10
    }

    /// Whether the record is a long-file-name record: all four low attribute
    /// bits set.
    pub fn is_lnf(&self) -> (r: bool)
        ensures
            r == (self.attributes == 0x0F),
    {
        self.attributes == 0x0F
    }
}

/// What it means for `e` to decode the regular record at record index `j` of
/// the listing bytes `s`: the record is in range, in use, not a long-name
/// record, and `e`'s kind, metadata, size and first cluster are exactly the
/// record's. The entry's name is assembled from the preceding long-name
/// records, or from the record's own short name.
pub open spec fn decodes_record(s: Seq<u8>, j: int, e: Entry) -> bool {
    let off = 32 * j;
    &&& 0 <= j
    &&& off + 32 <= s.len()
    &&& s[off] != 0xE5
    &&& s[off] != 0x00
    &&& s[off + 11] != 0x0F
    &&& match e {
        Entry::Dir(d) => {
            &&& s[off + 11] & 0x10 == 0x10
            &&& d.metadata == spec_metadata_at(s, off)
            &&& d.cluster.0 == spec_metadata_at(s, off).spec_start_cluster() & 0x0FFF_FFFF
        },
        Entry::File(f) => {
            &&& s[off + 11] & 0x10 != 0x10
            &&& f.metadata == spec_metadata_at(s, off)
            &&& f.start_cluster.0 == spec_metadata_at(s, off).spec_start_cluster() & 0x0FFF_FFFF
            &&& f.size == le32_at(s, off + 28)
            &&& f.offset == 0
            &&& f.curr_cluster == Some(f.start_cluster)
        },
    }
}

/// Whether record `j` of listing bytes `s` hands out no entry: it is deleted
/// or a long-file-name record.
pub open spec fn skippable_record(s: Seq<u8>, j: int) -> bool {
    s[32 * j] == 0xE5 || s[32 * j + 11] == 0x0F
}

/// Walks the 32-byte records of a directory listing, assembling long names,
/// and hands out one entry per in-use regular record.
pub struct EntryIterator {
    /// The listing bytes: the directory's whole cluster chain.
    pub data: Vec<u8>,
    /// The next record to look at.
    pub curr_idx: usize,
}

impl EntryIterator {
    /// The next entry of the listing: skips deleted records, folds long-name
    /// records into a name buffer, and stops at the end-of-listing mark.
    /// `Some(e)` decodes the first in-use regular record at or after the
    /// cursor, and leaves the cursor just past it.
    #[verifier::loop_isolation(false)]
    pub fn next(&mut self) -> (r: Option<Entry>)
        ensures
            final(self).data@ == old(self).data@,
            old(self).curr_idx <= final(self).curr_idx,
            forall|j: int|
                old(self).curr_idx <= j < final(self).curr_idx - 1 ==> #[trigger] skippable_record(
                    old(self).data@,
                    j,
                ),
            match r {
                Some(e) => exists|j: int|
                    {
                        &&& #[trigger] decodes_record(old(self).data@, j, e)
                        &&& old(self).curr_idx <= j
                        &&& final(self).curr_idx == j + 1
                    },
                None => {
                    // the scan ran out of records or hit the end-of-listing
                    // mark, skipping nothing it could have handed out
                    &&& (final(self).curr_idx + 1) * 32 > old(self).data@.len()
                        || old(self).data@[32 * (final(self).curr_idx as int)] == 0
                    &&& forall|j: int|
                        old(self).curr_idx <= j < final(self).curr_idx
                            ==> #[trigger] skippable_record(old(self).data@, j)
                },
            },
    {
        let ghost data0 = self.data@;
        let mut lfn_units: Vec<u16> = vec![0u16; 260];
        let n: usize = self.data.len() / 32;
        while self.curr_idx < n
            invariant
                self.data@ == data0,
                n == data0.len() / 32,
                old(self).curr_idx <= self.curr_idx,
                lfn_units@.len() == 260,
                forall|j: int|
                    old(self).curr_idx <= j < self.curr_idx ==> #[trigger] skippable_record(
                        data0,
                        j,
                    ),
            decreases n - self.curr_idx,
        {
            let off = self.curr_idx * 32;
            proof {
                assert(32 * (self.curr_idx as int) + 32 <= data0.len()) by (nonlinear_arith)
                    requires
                        self.curr_idx < n,
                        n == data0.len() / 32,
                ;
            }
            let unknown = VFatUnknownDirEntry::parse(&self.data, off);

            if unknown.prev_is_last_entry() {
                return None;
            }
            let ghost j = self.curr_idx as int;
            self.curr_idx = self.curr_idx + 1;
            if unknown.is_deleted_or_unused() {
                // deleted record: nothing to hand out
            } else if unknown.is_lnf() {
                let lfn = VFatLfnDirEntry::parse(&self.data, off);
                let idx_bits = lfn.sequence & 0x1F;
                if idx_bits >= 1 && idx_bits <= 20 {
                    let slot = (idx_bits - 1) as usize * 13;
                    let mut k: usize = 0;
                    while k < 5
                        invariant
                            k <= 5,
                            slot <= 247,
                            lfn_units@.len() == 260,
                            lfn.name@.len() == 5,
                        decreases 5 - k,
                    {
                        let unit = lfn.name[k];
                        lfn_units[slot + k] = unit;
                        k = k + 1;
                    }
                    let mut k: usize = 0;
                    while k < 6
                        invariant
                            k <= 6,
                            slot <= 247,
                            lfn_units@.len() == 260,
                            lfn.name_2@.len() == 6,
                        decreases 6 - k,
                    {
                        let unit = lfn.name_2[k];
                        lfn_units[slot + 5 + k] = unit;
                        k = k + 1;
                    }
                    let mut k: usize = 0;
                    while k < 2
                        invariant
                            k <= 2,
                            slot <= 247,
                            lfn_units@.len() == 260,
                            lfn.name_3@.len() == 2,
                        decreases 2 - k,
                    {
                        let unit = lfn.name_3[k];
                        lfn_units[slot + 11 + k] = unit;
                        k = k + 1;
                    }
                }
            } else {
                let regular = VFatRegularDirEntry::parse(&self.data, off);
                let name = if lfn_units[0] == 0 {
                    short_name(&regular.file_name, &regular.file_ext)
                } else {
                    long_name(&lfn_units)
                };
                let cluster = Cluster::from(regular.metadata.start_cluster());
                let e = if unknown.is_regular_directory() {
                    Entry::Dir(Dir { cluster, name, metadata: regular.metadata })
                } else {
                    Entry::File(File::new(name, regular.metadata, cluster, regular.size))
                };
                proof {
                    assert(decodes_record(data0, j, e));
                }
                return Some(e);
            }
        }
        None
    }
}

/// Appends one character to a name being assembled.
fn push_char(s: &mut String, c: char) {
    let cs = c.to_string();
    s.append(cs.as_str());
}

/// The short name of a regular record: the name field with trailing spaces
/// trimmed, then a dot and the extension when the trimmed extension is not
/// empty. Bytes are taken as characters.
fn short_name(file_name: &Vec<u8>, file_ext: &Vec<u8>) -> (r: String) {
    let mut name_len: usize = file_name.len();
    while name_len > 0 && file_name[name_len - 1] == 0x20
        invariant
            name_len <= file_name@.len(),
        decreases name_len,
    {
        name_len = name_len - 1;
    }
    let mut ext_len: usize = file_ext.len();
    while ext_len > 0 && file_ext[ext_len - 1] == 0x20
        invariant
            ext_len <= file_ext@.len(),
        decreases ext_len,
    {
        ext_len = ext_len - 1;
    }
    let mut r = String::new();
    let mut i: usize = 0;
    while i < name_len
        invariant
            name_len <= file_name@.len(),
        decreases name_len - i,
    {
        push_char(&mut r, file_name[i] as char);
        i = i + 1;
    }
    if ext_len > 0 {
        push_char(&mut r, '.');
        let mut i: usize = 0;
        while i < ext_len
            invariant
                ext_len <= file_ext@.len(),
            decreases ext_len - i,
        {
            push_char(&mut r, file_ext[i] as char);
            i = i + 1;
        }
    }
    r
}

/// The long name assembled from the collected name units, up to the first
/// terminator (0x0000) or padding (0xFFFF) unit. Units beyond the range of a
/// single byte stand in as '?': this reader keeps names it cannot spell.
fn long_name(units: &Vec<u16>) -> (r: String) {
    let mut r = String::new();
    let mut i: usize = 0;
    let n = units.len();
    while i < n
        invariant
            n == units@.len(),
            i <= n,
        decreases n - i,
    {
        let u = units[i];
        if u == 0x0000 || u == 0xFFFF {
            return r;
        }
        if u < 0x100 {
            push_char(&mut r, u as u8 as char);
        } else {
            push_char(&mut r, '?');
        }
        i = i + 1;
    }
    r
}

impl Dir {
    pub open spec fn wf(&self) -> bool {
        self.cluster.wf()
    }

    /// The root directory of the mounted volume: its cluster comes from the
    /// parameter block; it has no name and no metadata of its own.
    pub fn new_root<D: BlockDevice>(fs: &VFat<D>) -> (r: Dir)
        requires
            fs.wf(),
        ensures
            r.cluster == fs.root_dir_cluster,
            r.name@ == Seq::<char>::empty(),
            r.metadata == Metadata::spec_default(),
            r.wf(),
    {
        Dir { cluster: fs.root_dir_cluster, name: String::new(), metadata: Metadata::default() }
    }

    /// Reads the directory's whole record chain and returns an iterator over
    /// its entries, positioned at the first record.
    pub fn entries<D: BlockDevice>(&self, fs: &mut VFat<D>) -> (r: Result<EntryIterator, IoError>)
        requires
            old(fs).wf(),
            self.wf(),
        ensures
            final(fs).wf(),
            final(fs).config() == old(fs).config(),
            final(fs).device.sectors() == old(fs).device.sectors(),
            match r {
                Ok(it) => {
                    &&& it.curr_idx == 0
                    &&& exists|chain: Seq<Cluster>|
                        {
                            &&& #[trigger] old(fs).is_chain_from(chain, self.cluster)
                            &&& it.data@ == old(fs).chain_bytes(chain)
                        }
                },
                Err(_) => true,
            },
    {
        let mut buf: Vec<u8> = Vec::new();
        match fs.read_chain(self.cluster, &mut buf) {
            Ok(_) => {},
            Err(e) => {
                return Err(e);
            },
        }
        proof {
            assert(buf@.take(0) =~= Seq::<u8>::empty());
        }
        Ok(EntryIterator { data: buf, curr_idx: 0 })
    }

    /// Finds the entry named `name` in this directory, comparing names
    /// without regard to ASCII case: the entry handed back bears the name
    /// asked for, letter case aside. `NotFound` when no entry matches.
    #[verifier::loop_isolation(false)]
    pub fn find<D: BlockDevice>(&self, fs: &mut VFat<D>, name: &str) -> (r: Result<Entry, IoError>)
        requires
            old(fs).wf(),
            self.wf(),
        ensures
            final(fs).wf(),
            final(fs).config() == old(fs).config(),
            final(fs).device.sectors() == old(fs).device.sectors(),
            r matches Ok(e) ==> eq_ignore_ascii_case_spec(e.spec_name(), name@),
    {
        let mut it = match self.entries(fs) {
            Ok(it) => it,
            Err(e) => {
                return Err(e);
            },
        };
        let mut remaining: usize = it.data.len() / 32 + 1;
        while remaining > 0
            decreases remaining,
        {
            match it.next() {
                Some(e) => {
                    let matches_query = str_eq_ignore_ascii_case(e.name(), name);
                    if matches_query {
                        return Ok(e);
                    }
                },
                None => {
                    return Err(IoError::NotFound);
                },
            }
            remaining = remaining - 1;
        }
        Err(IoError::NotFound)
    }
}

/// An ASCII capital letter folded to lower case; any other character
/// unchanged.
pub open spec fn ascii_lower(c: char) -> char {
    if 'A' <= c <= 'Z' {
        ((c as u8) + 32) as char
    } else {
        c
    }
}

/// Whether two names are equal once ASCII letters are folded to lower case.
pub open spec fn eq_ignore_ascii_case_spec(a: Seq<char>, b: Seq<char>) -> bool {
    &&& a.len() == b.len()
    &&& forall|i: int| 0 <= i < a.len() ==> ascii_lower(#[trigger] a[i]) == ascii_lower(b[i])
}

/// Compares two names character by character, folding ASCII letters to lower
/// case.
pub fn str_eq_ignore_ascii_case(a: &str, b: &str) -> (r: bool)
    ensures
        r == eq_ignore_ascii_case_spec(a@, b@),
{
    let n = a.unicode_len();
    if n != b.unicode_len() {
        return false;
    }
    let mut i: usize = 0;
    while i < n
        invariant
            n == a@.len(),
            n == b@.len(),
            i <= n,
            forall|k: int| 0 <= k < i ==> ascii_lower(#[trigger] a@[k]) == ascii_lower(b@[k]),
        decreases n - i,
    {
        let ac = a.get_char(i);
        let bc = b.get_char(i);
        let al = if 'A' <= ac && ac <= 'Z' {
            lower_char(ac)
        } else {
            ac
        };
        let bl = if 'A' <= bc && bc <= 'Z' {
            lower_char(bc)
        } else {
            bc
        };
        if al != bl {
            return false;
        }
        i = i + 1;
    }
    true
}

/// The lower-case form of an ASCII capital letter.
fn lower_char(c: char) -> (r: char)
    requires
        'A' <= c <= 'Z',
    ensures
        r == (((c as u8) + 32) as char),
{
    ((c as u8) + 32) as char
}

} // verus!
