//! The kernel's one file-system instance: a process-wide slot that starts
//! empty and holds the mounted volume once the disk is up.
use vstd::prelude::*;

use crate::device::BlockDevice;
use crate::vfat::volume::VFat;

verus! {

/// A process-wide slot for the mounted volume. As with the scheduler,
/// exclusive access (`&mut`) stands for the lock the kernel takes around it.
pub struct FileSystem<D: BlockDevice> {
    /// `None` until `initialize`; the mounted volume ever after.
    pub inner: Option<VFat<D>>,
}

impl<D: BlockDevice> FileSystem<D> {
    /// Whether `initialize` has run.
    pub open spec fn spec_is_initialized(&self) -> bool {
        self.inner is Some
    }

    /// The mounted volume.
    pub open spec fn volume(&self) -> VFat<D> {
        self.inner.unwrap()
    }

    /// An uninitialized slot: usable as a static initializer, fatal to read
    /// through until `initialize` runs.
    pub fn uninitialized() -> (r: FileSystem<D>)
        ensures
            !r.spec_is_initialized(),
    {
        FileSystem { inner: None }
    }

    /// Whether `initialize` has run.
    #[verifier::when_used_as_spec(spec_is_initialized)]
    pub fn is_initialized(&self) -> (r: bool)
        ensures
            r == self.spec_is_initialized(),
    {
        self.inner.is_some()
    }

    /// Stores the mounted volume. Runs exactly once, before the first use;
    /// the disk driver mounts the volume and hands it in.
    pub fn initialize(&mut self, volume: VFat<D>)
        requires
            !old(self).spec_is_initialized(),
            volume.wf(),
        ensures
            final(self).spec_is_initialized(),
            final(self).volume() == volume,
            final(self).volume().wf(),
    {
        self.inner = Some(volume);
    }

    /// The mounted volume, for reading. Calling this before `initialize` is a
    /// boot-sequence bug and is excluded by contract.
    pub fn get(&mut self) -> (r: &mut VFat<D>)
        requires
            old(self).spec_is_initialized(),
        ensures
            *r == old(self).volume(),
            final(self).inner == Some(*final(r)),
    {
        match &mut self.inner {
            Some(v) => v,
            None => vstd::pervasive::unreached(),
        }
    }
}

} // verus!
