//! Core of a small preemptive kernel for a single-core machine: trap-frame
//! bookkeeping, a round-robin process scheduler with a deferred-wait mechanism,
//! the blocking `sleep` system call built on it, exception-syndrome decoding,
//! and a read-only FAT32 volume reader over a pluggable block device.
//!
//! Everything time- or hardware-dependent is passed in as plain values (the
//! current time in microseconds, sector bytes), so the logic here is verified
//! for every possible behaviour of the hardware around it.
pub mod trap_frame;
pub mod process;
pub mod scheduler;
pub mod syscall;
pub mod traps;
pub mod io;
pub mod device;
pub mod allocator;
pub mod util;
pub mod mbr;
pub mod vfat;
pub mod fs;
