//! The FAT32 volume reader: the extended BIOS parameter block, the file
//! allocation table, cluster chains, directories and files, all read-only.
pub mod cluster;
pub mod error;
pub mod fat;
pub mod metadata;
pub mod ebpb;
pub mod volume;
pub mod entry;
pub mod file;
pub mod dir;

pub use self::cluster::Cluster;
pub use self::error::Error;
pub use self::fat::{FatEntry, Status};
pub use self::metadata::{Attributes, Date, Metadata, Time, Timestamp};
pub use self::ebpb::BiosParameterBlock;
pub use self::volume::VFat;
pub use self::entry::Entry;
pub use self::file::File;
pub use self::dir::{Dir, EntryIterator, VFatLfnDirEntry, VFatRegularDirEntry, VFatUnknownDirEntry};
