//! A directory entry: a file or a subdirectory.
use vstd::prelude::*;

use crate::vfat::dir::Dir;
use crate::vfat::file::File;
use crate::vfat::metadata::Metadata;

verus! {

/// One entry of a directory listing.
pub enum Entry {
    File(File),
    Dir(Dir),
}

impl Entry {
    /// The entry's name, as characters.
    pub open spec fn spec_name(&self) -> Seq<char> {
        match self {
            Entry::File(f) => f.name@,
            Entry::Dir(d) => d.name@,
        }
    }

    /// The entry's metadata block.
    pub open spec fn spec_metadata(&self) -> Metadata {
        match self {
            Entry::File(f) => f.metadata,
            Entry::Dir(d) => d.metadata,
        }
    }

    /// The entry's name.
    pub fn name(&self) -> (r: &str)
        ensures
            r@ == self.spec_name(),
    {
        match self {
            Entry::File(file) => file.name.as_str(),
            Entry::Dir(dir) => dir.name.as_str(),
        }
    }

    /// The entry's metadata block.
    pub fn metadata(&self) -> (r: &Metadata)
        ensures
            *r == self.spec_metadata(),
    {
        match self {
            Entry::File(file) => &file.metadata,
            Entry::Dir(dir) => &dir.metadata,
        }
    }

    /// The file this entry is, when it is one.
    pub fn as_file(&self) -> (r: Option<&File>)
        ensures
            match self {
                Entry::File(f) => r == Some(f),
                Entry::Dir(_) => r is None,
            },
    {
        match self {
            Entry::File(file) => Some(file),
            _ => None,
        }
    }

    /// The directory this entry is, when it is one.
    pub fn as_dir(&self) -> (r: Option<&Dir>)
        ensures
            match self {
                Entry::Dir(d) => r == Some(d),
                Entry::File(_) => r is None,
            },
    {
        match self {
            Entry::Dir(dir) => Some(dir),
            _ => None,
        }
    }

    /// The file this entry is, when it is one, by value.
    pub fn into_file(self) -> (r: Option<File>)
        ensures
            match self {
                Entry::File(f) => r == Some(f),
                Entry::Dir(_) => r is None,
            },
    {
        match self {
            Entry::File(file) => Some(file),
            _ => None,
        }
    }

    /// The directory this entry is, when it is one, by value.
    pub fn into_dir(self) -> (r: Option<Dir>)
        ensures
            match self {
                Entry::Dir(d) => r == Some(d),
                Entry::File(_) => r is None,
            },
    {
        match self {
            Entry::Dir(dir) => Some(dir),
            _ => None,
        }
    }
}

} // verus!
