//! Why mounting or reading the volume failed.
use vstd::prelude::*;

use crate::io::IoError;
use crate::mbr;

verus! {

/// A volume-level failure.
#[derive(Debug, PartialEq, Eq, Structural, Copy, Clone)]
pub enum Error {
    /// The master boot record could not be read or parsed.
    Mbr(mbr::Error),
    /// The device failed, or handed back fewer bytes than a sector holds.
    Io(IoError),
    /// The BIOS parameter block's magic signature is not 0xAA55.
    BadSignature,
    /// No partition of a FAT32 type was found.
    NotFound,
}

} // verus!
