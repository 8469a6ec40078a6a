//! Verified access to the PCI/PCIe configuration space.
//!
//! The configuration space of a PCI function can only be transacted in
//! aligned 4-byte (dword) units, while the registers that live in it
//! have sizes from one byte up to several dwords.  This crate provides:
//!
//! * [`address::PciAddress`] — the packed segment/bus/slot/function
//!   address, and [`address::DwordAccessMethod`] — the transaction
//!   channel every component uses, specified by an abstract per-dword
//!   model of the space;
//! * [`accessor::DwordAccessor`] — the field-access engine reconciling
//!   arbitrary register sizes with the dword-only channel;
//! * [`dwords`] — the register types of dword size or smaller;
//! * [`headers`] — the typed header overlays, header-type dispatch, and
//!   the Base Address Register (BAR) decode and size probe;
//! * [`capability`] — traversal of the capability linked list;
//! * [`msi`] — the 32-/64-bit Message Signaled Interrupt capability
//!   codec behind one canonical shape;
//! * [`mem_channel`] — an in-memory channel, the reference
//!   implementation of the transaction model, for emulators and tests.
//!
//! Relative to the channel model, every register write is proved to
//! replace exactly the bytes of the addressed field and nothing else,
//! reading a field back returns exactly the value written, and the BAR
//! size probe leaves the device state exactly as it found it.
//!
//! No component blocks, spawns, or locks: every operation is a
//! synchronous sequence of dword transactions, issued in ascending
//! offset order within one call.  Nothing is atomic across dwords, so
//! callers that share a region must synchronize externally — above all
//! around the BAR probe, whose intermediate states are real device
//! state.

pub mod access;
pub mod accessor;
pub mod address;
pub mod bits;
pub mod capability;
pub mod dwords;
pub mod headers;
pub mod mem_channel;
pub mod msi;

pub use access::Access;
pub use accessor::{DwordAccessor, RegisterValue};
pub use address::{DwordAccessMethod, PciAddress};
pub use capability::{CapabilityHeader, CapabilityIterator};
pub use headers::{Bar, BarWriteError, EndpointHeader, HeaderType, PciHeader, PciPciBridgeHeader};
pub use mem_channel::MemChannel;
pub use msi::{MessageControl, MessageData, MsiCapability, MsiCapabilityInfo, MultipleMessageSupport, TriggerMode};
