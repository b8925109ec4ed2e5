//! The kernel's handle on its filesystem.
//!
//! The driver that reads sectors lives outside this crate; what the
//! kernel core holds is the mounted volume's geometry, behind the same
//! initialize-before-use lifecycle as the scheduler.

use vstd::prelude::*;
use crate::fat32::vfat::VFat;

verus! {

/// The kernel's filesystem handle: uninitialized at boot, then carrying
/// the mounted volume's geometry.
pub struct FileSystem {
    inner: Option<VFat>,
}

impl FileSystem {
    /// Whether `initialize` has run.
    pub closed spec fn is_initialized(self) -> bool {
        self.inner is Some
    }

    /// The mounted volume's geometry.
    pub closed spec fn volume(self) -> VFat
        recommends
            self.is_initialized(),
    {
        self.inner.unwrap()
    }

    /// Returns an uninitialized `FileSystem`.
    ///
    /// The file system must be initialized by calling `initialize()`
    /// before its volume is read.
    pub fn uninitialized() -> (r: FileSystem)
        ensures
            !r.is_initialized(),
    {
        FileSystem { inner: None }
    }

    /// Initializes the file system with the geometry of the mounted
    /// volume, computed by the caller from the on-disk headers.  Invoked
    /// once during kernel initialization.
    pub fn initialize(&mut self, vfat: VFat)
        ensures
            final(self).is_initialized(),
            final(self).volume() == vfat,
    {
        self.inner = Some(vfat);
    }

    /// The mounted volume's geometry.
    pub fn get_volume(&self) -> (r: &VFat)
        requires
            self.is_initialized(),
        ensures
            *r == self.volume(),
    {
        match &self.inner {
            Some(v) => v,
            None => {
                proof {
                    assert(false);
                }
                unreached()
            },
        }
    }
}

} // verus!
