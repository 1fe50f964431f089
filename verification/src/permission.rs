//! Per-address read/write/execute permission flags for the whole logical
//! address space.

use vstd::prelude::*;

use crate::address::ArrayByAddress;

verus! {

/// The permissions of the whole logical address space.
pub type Permissions = ArrayByAddress<Permission>;

/// The permission flags of one logical address.
#[derive(Clone, Copy, Debug, Default, PartialEq, Eq, Structural)]
pub struct Permission {
    readable: bool,
    writable: bool,
    executable: bool,
}

impl Permission {
    pub fn new(readable: bool, writable: bool, executable: bool) -> (r: Self)
        ensures
            r.is_readable() == readable,
            r.is_writable() == writable,
            r.is_executable() == executable,
    {
        Permission { readable, writable, executable }
    }

    pub closed spec fn spec_is_readable(self) -> bool {
        self.readable
    }

    #[verifier::when_used_as_spec(spec_is_readable)]
    pub fn is_readable(self) -> (r: bool)
        ensures
            r == self.is_readable(),
    {
        self.readable
    }

    pub closed spec fn spec_is_writable(self) -> bool {
        self.writable
    }

    #[verifier::when_used_as_spec(spec_is_writable)]
    pub fn is_writable(self) -> (r: bool)
        ensures
            r == self.is_writable(),
    {
        self.writable
    }

    pub closed spec fn spec_is_executable(self) -> bool {
        self.executable
    }

    #[verifier::when_used_as_spec(spec_is_executable)]
    pub fn is_executable(self) -> (r: bool)
        ensures
            r == self.is_executable(),
    {
        self.executable
    }
}

} // verus!
