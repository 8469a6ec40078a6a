//! Access permission tags for accessors.

use vstd::prelude::*;

verus! {

/// The permission an accessor carries: a closed set of capability tags
/// that gates which operations are available.  Reading needs a readable
/// tag; writing needs read *and* write permission, because a sub-dword
/// write has to read the containing dword first.
#[derive(Clone, Copy, PartialEq, Eq, Structural, Debug)]
pub enum Access {
    ReadOnly,
    WriteOnly,
    ReadWrite,
}

impl Access {
    /// Whether this permission allows reads.
    pub open spec fn spec_readable(self) -> bool {
        self == Access::ReadOnly || self == Access::ReadWrite
    }

    /// Whether this permission allows writes.
    pub open spec fn spec_writable(self) -> bool {
        self == Access::WriteOnly || self == Access::ReadWrite
    }

    /// Whether this permission allows reads.
    pub fn readable(self) -> (r: bool)
        ensures
            r == self.spec_readable(),
    {
        match self {
            Access::ReadOnly => true,
            Access::WriteOnly => false,
            Access::ReadWrite => true,
        }
    }

    /// Whether this permission allows writes.
    pub fn writable(self) -> (r: bool)
        ensures
            r == self.spec_writable(),
    {
        match self {
            Access::ReadOnly => false,
            Access::WriteOnly => true,
            Access::ReadWrite => true,
        }
    }
}

} // verus!
