//! An in-memory configuration space: the reference implementation of
//! the transaction channel, for emulators and tests.

use vstd::prelude::*;

use crate::address::{DwordAccessMethod, PciAddress};

verus! {

/// A channel backed by plain memory, holding the 4096-byte configuration
/// space of one function.  Reads addressed at any other function return
/// the all-ones pattern an absent function produces, and writes to one
/// are dropped.
pub struct MemChannel {
    addr: PciAddress,
    multi: bool,
    dwords: Vec<u32>,
}

impl MemChannel {
    #[verifier::type_invariant]
    spec fn type_inv(self) -> bool {
        self.dwords@.len() == 1024
    }

    /// The address of the one function this channel backs.
    pub closed spec fn spec_addr(self) -> PciAddress {
        self.addr
    }

    /// Creates a channel whose function's space reads as all zero.
    pub fn new(addr: PciAddress, multi_function: bool) -> (r: MemChannel)
        ensures
            r.spec_addr() == addr,
            forall|a: PciAddress, i: int|
                #[trigger] r.dword_at(a, i) == if a == addr && 0 <= i < 1024 {
                    0u32
                } else {
                    0xffff_ffffu32
                },
            forall|a: PciAddress| #[trigger] r.spec_function_exists(a) == (a == addr),
            forall|a: PciAddress|
                #[trigger] r.spec_has_multiple_functions(a) == (a == addr && multi_function),
    {
        let mut dwords: Vec<u32> = Vec::new();
        let mut i: usize = 0;
        while i < 1024
            invariant
                i <= 1024,
                dwords@.len() == i,
                forall|k: int| 0 <= k < i ==> dwords@[k] == 0u32,
            decreases 1024 - i,
        {
            dwords.push(0);
            i += 1;
        }
        MemChannel { addr, multi: multi_function, dwords }
    }
}

impl DwordAccessMethod for MemChannel {
    closed spec fn dword_at(&self, address: PciAddress, index: int) -> u32 {
        if address == self.addr && 0 <= index < self.dwords@.len() {
            self.dwords@[index]
        } else {
            0xffff_ffffu32
        }
    }

    closed spec fn spec_function_exists(&self, address: PciAddress) -> bool {
        address == self.addr
    }

    closed spec fn spec_has_multiple_functions(&self, address: PciAddress) -> bool {
        address == self.addr && self.multi
    }

    fn function_exists(&self, address: PciAddress) -> (r: bool) {
        address == self.addr
    }

    fn has_multiple_functions(&self, address: PciAddress) -> (r: bool) {
        address == self.addr && self.multi
    }

    fn read_dword(&self, address: PciAddress, offset: u16) -> (r: u32) {
        proof {
            use_type_invariant(self);
        }
        if address == self.addr {
            self.dwords[(offset / 4) as usize]
        } else {
            0xffff_ffff
        }
    }

    fn write_dword(&mut self, address: PciAddress, offset: u16, value: u32) {
        proof {
            use_type_invariant(&*self);
        }
        if address == self.addr {
            self.dwords[(offset / 4) as usize] = value;
        }
    }
}

} // verus!
