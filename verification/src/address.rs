//! PCI function addresses and the dword transaction channel.

use vstd::prelude::*;

verus! {

/// The address of a PCI/PCIe function.
///
/// PCIe supports 65536 segment groups, each with 256 buses, each with 32
/// slots, each with 8 possible functions.  The four numbers are packed
/// into a `u32`: bits 16–31 hold the group, bits 8–15 the bus, bits 3–7
/// the slot and bits 0–2 the function.  In legacy PCI systems only
/// segment group 0 exists.
#[derive(Clone, Copy, Debug, PartialEq, Eq, Structural)]
pub struct PciAddress(u32);

impl PciAddress {
    /// The segment group number held in bits 16–31.
    pub closed spec fn spec_group(self) -> u16 {
        ((self.0 >> 16) & 0xffff) as u16
    }

    /// The bus number held in bits 8–15.
    pub closed spec fn spec_bus(self) -> u8 {
        ((self.0 >> 8) & 0xff) as u8
    }

    /// The slot number held in bits 3–7.
    pub closed spec fn spec_slot(self) -> u8 {
        ((self.0 >> 3) & 0x1f) as u8
    }

    /// The function number held in bits 0–2.
    pub closed spec fn spec_function(self) -> u8 {
        (self.0 & 0x7) as u8
    }

    /// Packs the four components into one address value.
    ///
    /// A slot number is 5 bits wide and a function number 3 bits wide;
    /// larger values would not fit in their fields.
    pub fn new(group: u16, bus: u8, device: u8, function: u8) -> (r: PciAddress)
        requires
            device < 32,
            function < 8,
        ensures
            r.spec_group() == group,
            r.spec_bus() == bus,
            r.spec_slot() == device,
            r.spec_function() == function,
    {
        let g: u32 = group as u32;
        let b: u32 = bus as u32;
        let d: u32 = device as u32;
        let f: u32 = function as u32;
        let raw: u32 = (g << 16) | (b << 8) | (d << 3) | f;
        proof {
            assert(g < 0x10000 && b < 0x100 && d < 32 && f < 8 ==> {
                let raw = (g << 16) | (b << 8) | (d << 3) | f;
                &&& (raw >> 16) & 0xffff == g
                &&& (raw >> 8) & 0xff == b
                &&& (raw >> 3) & 0x1f == d
                &&& raw & 0x7 == f
            }) by (bit_vector);
        }
        PciAddress(raw)
    }

    /// The segment group number.
    pub fn group(&self) -> (r: u16)
        ensures
            r == self.spec_group(),
    {
        ((self.0 >> 16) & 0xffff) as u16
    }

    /// The segment group number.  Synonym of [`Self::group`].
    pub fn segment(&self) -> (r: u16)
        ensures
            r == self.spec_group(),
    {
        self.group()
    }

    /// The bus number.
    pub fn bus(&self) -> (r: u8)
        ensures
            r == self.spec_bus(),
    {
        ((self.0 >> 8) & 0xff) as u8
    }

    /// The device slot number.
    pub fn slot(&self) -> (r: u8)
        ensures
            r == self.spec_slot(),
    {
        ((self.0 >> 3) & 0x1f) as u8
    }

    /// The device slot number.  Synonym of [`Self::slot`].
    pub fn device(&self) -> (r: u8)
        ensures
            r == self.spec_slot(),
    {
        self.slot()
    }

    /// The function number.
    pub fn function(&self) -> (r: u8)
        ensures
            r == self.spec_function(),
    {
        (self.0 & 0x7) as u8
    }
}

/// The dword-granular configuration-space transaction channel.
///
/// This is the one external collaborator of the crate: the concrete
/// transaction mechanism (memory-mapped, I/O-port indexed, …) is supplied
/// by the caller as an implementation of this trait.
///
/// An implementation chooses a model of the space it gives access to: the
/// spec function [`Self::dword_at`] names the dword stored at each index
/// of each function's space.  `read_dword` returns exactly the modelled
/// dword, and `write_dword` replaces exactly the addressed dword of an
/// existing function and nothing else.  A write addressed at a function
/// that does not exist is dropped.  Every contract proved about the
/// components built on this trait — in particular that a register write
/// touches only the bytes of its field, and that the BAR size probe
/// restores what it overwrote — is relative to this model; registers with
/// special write semantics are modelled by the decode functions that take
/// the device's raw answers as arguments.
///
/// Offsets are byte offsets into the 4096-byte configuration space and
/// must be 4-byte aligned; the caller must guarantee that the address and
/// offset name a valid mapped register.
pub trait DwordAccessMethod: Sized {
    /// The dword stored at dword index `index` of the space of `address`.
    spec fn dword_at(&self, address: PciAddress, index: int) -> u32;

    /// Which function addresses this channel reaches.
    spec fn spec_function_exists(&self, address: PciAddress) -> bool;

    /// Which functions belong to a multi-function device.
    spec fn spec_has_multiple_functions(&self, address: PciAddress) -> bool;

    /// Whether a function with the given address exists.
    fn function_exists(&self, address: PciAddress) -> (r: bool)
        ensures
            r == self.spec_function_exists(address),
    ;

    /// Whether the device holding the given address has multiple functions.
    fn has_multiple_functions(&self, address: PciAddress) -> (r: bool)
        ensures
            r == self.spec_has_multiple_functions(address),
    ;

    /// One dword transaction reading the aligned dword at `offset`.
    fn read_dword(&self, address: PciAddress, offset: u16) -> (r: u32)
        requires
            offset % 4 == 0,
            offset < 4096,
        ensures
            r == self.dword_at(address, offset as int / 4),
    ;

    /// One dword transaction replacing the aligned dword at `offset`.
    fn write_dword(&mut self, address: PciAddress, offset: u16, value: u32)
        requires
            offset % 4 == 0,
            offset < 4096,
        ensures
            old(self).spec_function_exists(address) ==> final(self).dword_at(
                address,
                offset as int / 4,
            ) == value,
            !old(self).spec_function_exists(address) ==> final(self).dword_at(
                address,
                offset as int / 4,
            ) == old(self).dword_at(address, offset as int / 4),
            forall|a: PciAddress, i: int|
                !(a == address && i == offset as int / 4) ==> final(self).dword_at(a, i) == old(
                    self,
                ).dword_at(a, i),
            forall|a: PciAddress|
                final(self).spec_function_exists(a) == old(self).spec_function_exists(a),
            forall|a: PciAddress|
                final(self).spec_has_multiple_functions(a) == old(
                    self,
                ).spec_has_multiple_functions(a),
    ;
}

} // verus!
