//! Configuration space headers: typed overlays, header-type dispatch,
//! and the Base Address Register (BAR) codec.
//!
//! Every configuration region starts with the predefined header
//! ([`PciHeader`], bytes `0x00..0x10`), followed by a device-dependent
//! continuation selected by the header-type byte: [`EndpointHeader`]
//! (type 0) or [`PciPciBridgeHeader`] (type 1).  The overlay types carry
//! no data of their own; they are layout tags whose accessors project
//! onto fields at fixed offsets, mirroring the hardware layout exactly.

use vstd::bytes::*;
use vstd::prelude::*;
use vstd::slice::slice_subrange;
use vstd::std_specs::bits::{axiom_u32_trailing_zeros, u32_trailing_zeros};

use crate::accessor::{
    bytes_at, lemma_aligned_index, same_device_state, DwordAccessor, RegisterValue,
};
use crate::address::{DwordAccessMethod, PciAddress};
use crate::capability::{CapabilityHeader, CapabilityIterator};
use crate::dwords::{BridgeControl, BusNos, CmdSts, EPLimits, HeaderTypeDword, IDs, Intr, RevCC, Status};

verus! {

/// The kind of header a function exposes, classified from bits 0–6 of
/// the header-type byte.  Every byte value maps to a defined outcome;
/// unrecognized values are carried in the explicit unknown leaf.
#[non_exhaustive]
#[derive(Clone, Copy, PartialEq, Eq, Structural, Debug)]
pub enum HeaderType {
    Endpoint,
    PciPciBridge,
    /// Recognized, but its full layout is not modelled here.
    CardBusBridge,
    Unknown(u8),
}

impl HeaderType {
    /// The header type a 7-bit type field denotes.
    pub open spec fn spec_from_raw(ty: u8) -> HeaderType {
        if ty == 0x00 {
            HeaderType::Endpoint
        } else if ty == 0x01 {
            HeaderType::PciPciBridge
        } else if ty == 0x02 {
            HeaderType::CardBusBridge
        } else {
            HeaderType::Unknown(ty)
        }
    }

    /// The header type a 7-bit type field denotes.
    pub fn from_raw(ty: u8) -> (r: HeaderType)
        ensures
            r == Self::spec_from_raw(ty),
    {
        match ty {
            0x00 => HeaderType::Endpoint,
            0x01 => HeaderType::PciPciBridge,
            0x02 => HeaderType::CardBusBridge,
            t => HeaderType::Unknown(t),
        }
    }
}

/// The predefined header every function exposes in bytes `0x00..0x10`:
/// the identification, command/status, class-code and header-type
/// dwords.
#[derive(Clone, Copy, Debug)]
pub struct PciHeader {
    /// Vendor and device id registers, offset 0x00.
    pub ids: IDs,
    /// Command and Status registers, offset 0x04.
    pub cmdsts: CmdSts,
    /// Revision id and class code registers, offset 0x08.
    pub revcc: RevCC,
    /// Cacheline size, latency timer, header type and BIST, offset 0x0C.
    pub config: HeaderTypeDword,
}

impl RegisterValue for PciHeader {
    open spec fn spec_size() -> nat {
        16
    }

    open spec fn as_bytes(self) -> Seq<u8> {
        self.ids.as_bytes() + self.cmdsts.as_bytes() + self.revcc.as_bytes()
            + self.config.as_bytes()
    }

    open spec fn of_bytes(b: Seq<u8>) -> PciHeader {
        PciHeader {
            ids: IDs::of_bytes(b.subrange(0, 4)),
            cmdsts: CmdSts::of_bytes(b.subrange(4, 8)),
            revcc: RevCC::of_bytes(b.subrange(8, 12)),
            config: HeaderTypeDword::of_bytes(b.subrange(12, 16)),
        }
    }

    proof fn lemma_round_trip(v: PciHeader) {
        IDs::lemma_round_trip(v.ids);
        CmdSts::lemma_round_trip(v.cmdsts);
        RevCC::lemma_round_trip(v.revcc);
        HeaderTypeDword::lemma_round_trip(v.config);
        let all = v.as_bytes();
        assert(all.subrange(0, 4) =~= v.ids.as_bytes());
        assert(all.subrange(4, 8) =~= v.cmdsts.as_bytes());
        assert(all.subrange(8, 12) =~= v.revcc.as_bytes());
        assert(all.subrange(12, 16) =~= v.config.as_bytes());
    }

    fn byte_size() -> (n: u16) {
        16
    }

    fn from_bytes(b: &[u8]) -> (r: PciHeader) {
        let ids: IDs = IDs::from_bytes(slice_subrange(b, 0, 4));
        let cmdsts: CmdSts = CmdSts::from_bytes(slice_subrange(b, 4, 8));
        let revcc: RevCC = RevCC::from_bytes(slice_subrange(b, 8, 12));
        let config: HeaderTypeDword = HeaderTypeDword::from_bytes(slice_subrange(b, 12, 16));
        let r = PciHeader { ids, cmdsts, revcc, config };
        proof {
            assert(r.as_bytes() =~= b@);
        }
        r
    }

    fn to_bytes(&self) -> (b: Vec<u8>) {
        let mut v: Vec<u8> = self.ids.to_bytes();
        let mut w: Vec<u8> = self.cmdsts.to_bytes();
        v.append(&mut w);
        let mut x: Vec<u8> = self.revcc.to_bytes();
        v.append(&mut x);
        let mut y: Vec<u8> = self.config.to_bytes();
        v.append(&mut y);
        v
    }
}

impl DwordAccessor<PciHeader> {
    /// The vendor/device id dword at offset 0x00.
    pub fn ids(&self) -> (r: DwordAccessor<IDs>)
        requires
            self.spec_offset() + 16 <= 4096,
        ensures
            r.spec_region() == self.spec_region(),
            r.spec_offset() == self.spec_offset(),
            r.spec_access() == self.spec_access(),
    {
        self.field::<IDs>(0)
    }

    /// The command/status dword at offset 0x04.
    pub fn cmdsts(&self) -> (r: DwordAccessor<CmdSts>)
        requires
            self.spec_offset() + 16 <= 4096,
        ensures
            r.spec_region() == self.spec_region(),
            r.spec_offset() == self.spec_offset() + 4,
            r.spec_access() == self.spec_access(),
    {
        self.field::<CmdSts>(4)
    }

    /// The revision/class-code dword at offset 0x08.
    pub fn revcc(&self) -> (r: DwordAccessor<RevCC>)
        requires
            self.spec_offset() + 16 <= 4096,
        ensures
            r.spec_region() == self.spec_region(),
            r.spec_offset() == self.spec_offset() + 8,
            r.spec_access() == self.spec_access(),
    {
        self.field::<RevCC>(8)
    }

    /// The header-type dword at offset 0x0C.
    pub fn config(&self) -> (r: DwordAccessor<HeaderTypeDword>)
        requires
            self.spec_offset() + 16 <= 4096,
        ensures
            r.spec_region() == self.spec_region(),
            r.spec_offset() == self.spec_offset() + 12,
            r.spec_access() == self.spec_access(),
    {
        self.field::<HeaderTypeDword>(12)
    }
}

/// The header type stored in the predefined header that starts at byte
/// offset `hdr_off` of `region`'s space, under the channel model.
pub open spec fn spec_header_type_at<M: DwordAccessMethod>(
    m: M,
    region: PciAddress,
    hdr_off: int,
) -> HeaderType {
    HeaderTypeDword::of_bytes(bytes_at(m, region, hdr_off + 12, 4)).spec_header_type()
}

/// The offset the capability list starts at for the header at `hdr_off`:
/// the capability pointer byte at `hdr_off + 0x34` when the status word
/// advertises a capability list, and the 0 sentinel otherwise.
pub open spec fn spec_capabilities_start<M: DwordAccessMethod>(
    m: M,
    region: PciAddress,
    hdr_off: int,
) -> u16 {
    if CmdSts::of_bytes(
        bytes_at(m, region, hdr_off + 4, 4),
    ).spec_status().spec_has_capability_list() {
        byte_at_cap_pointer(m, region, hdr_off)
    } else {
        0
    }
}

/// The raw capability pointer byte at `hdr_off + 0x34`.
pub open spec fn byte_at_cap_pointer<M: DwordAccessMethod>(
    m: M,
    region: PciAddress,
    hdr_off: int,
) -> u16 {
    crate::accessor::byte_at(m, region, hdr_off + 0x34) as u16
}

/// The decoded contents of one Base Address Register resource, derived
/// from one BAR slot (or two for a 64-bit memory BAR).
#[derive(Clone, Copy, Debug, PartialEq, Eq, Structural)]
pub enum Bar {
    Memory32 { address: u32, size: u32, prefetchable: bool },
    Memory64 { address: u64, size: u64, prefetchable: bool },
    Io { port: u32 },
}

/// Why a BAR write was refused.
#[derive(Clone, Copy, PartialEq, Eq, Structural, Debug)]
pub enum BarWriteError {
    /// The slot is out of range or holds no implemented BAR.
    NoSuchBar,
    /// The value is too wide for the BAR at the slot.
    InvalidValue,
}

/// Bit 0 of a raw BAR dword selects the I/O address space.
pub open spec fn spec_bar_is_io(raw: u32) -> bool {
    raw & 1 == 1
}

/// The port of an I/O-space BAR: bits 2–31, shifted back into place.
pub open spec fn spec_bar_io_port(raw: u32) -> u32 {
    (raw >> 2) << 2
}

/// The width field of a memory-space BAR: bits 1–2 (`0` selects the
/// 32-bit kind, `2` the 64-bit kind, anything else is reserved).
pub open spec fn spec_bar_width_raw(raw: u32) -> u32 {
    (raw >> 1) & 3
}

/// Bit 3 of a memory-space BAR: the region is prefetchable.
pub open spec fn spec_bar_prefetchable(raw: u32) -> bool {
    raw & 8 == 8
}

/// The address bits of a memory-space BAR: bits 4–31, shifted back.
pub open spec fn spec_bar_address32(raw: u32) -> u32 {
    (raw >> 4) << 4
}

/// A memory-space BAR whose width field holds a reserved encoding.
/// That is a contract violation, not a decodable state: the BAR
/// functions refuse such a slot rather than guessing a layout.
pub open spec fn spec_bar_reserved_width(raw: u32) -> bool {
    !spec_bar_is_io(raw) && spec_bar_width_raw(raw) != 0 && spec_bar_width_raw(raw) != 2
}

/// The size the probe readback of a 32-bit memory BAR denotes.  The
/// flag bits (0–3) are masked off; an all-zero masked readback reports
/// the BAR as absent, not as zero-sized; otherwise the size is the value
/// of the lowest writable address bit.
pub open spec fn spec_bar_size32(readback: u32) -> Option<u32> {
    let masked = readback & 0xffff_fff0u32;
    if masked == 0 {
        None
    } else {
        Some(1u32 << u32_trailing_zeros(masked))
    }
}

/// The size the two probe readbacks of a 64-bit memory BAR denote: the
/// lowest writable bit of the masked low readback if any, else the
/// lowest writable bit of the high readback shifted into the upper
/// half; absent when both are all-zero.
pub open spec fn spec_bar_size64(rb_low: u32, rb_high: u32) -> Option<u64> {
    let masked = rb_low & 0xffff_fff0u32;
    if masked != 0 {
        Some(1u64 << u32_trailing_zeros(masked))
    } else if rb_high != 0 {
        Some(1u64 << (u32_trailing_zeros(rb_high) + 32))
    } else {
        None
    }
}

/// The BAR that one slot (or one slot pair) denotes, given the raw
/// dword of the slot, the raw dword of the following slot, the masked
/// probe readbacks, and whether the slot is the last one.  A 64-bit BAR
/// in the last slot has no second slot to read and is unrepresentable.
/// The combined 64-bit address is `(upper dword << 32) | masked low
/// address bits`.
pub open spec fn spec_decode_bar_probed(
    raw: u32,
    raw_upper: u32,
    rb_low: u32,
    rb_high: u32,
    last_slot: bool,
) -> Option<Bar> {
    if spec_bar_is_io(raw) {
        Some(Bar::Io { port: spec_bar_io_port(raw) })
    } else if spec_bar_width_raw(raw) == 0 {
        match spec_bar_size32(rb_low) {
            Option::None => None,
            Option::Some(size) => Some(
                Bar::Memory32 {
                    address: spec_bar_address32(raw),
                    size,
                    prefetchable: spec_bar_prefetchable(raw),
                },
            ),
        }
    } else if spec_bar_width_raw(raw) == 2 {
        if last_slot {
            None
        } else {
            match spec_bar_size64(rb_low, rb_high) {
                Option::None => None,
                Option::Some(size) => Some(
                    Bar::Memory64 {
                        address: ((raw_upper as u64) << 32) | (spec_bar_address32(raw) as u64),
                        size,
                        prefetchable: spec_bar_prefetchable(raw),
                    },
                ),
            }
        }
    } else {
        None
    }
}

/// The BAR a slot denotes when only the base is wanted: as
/// [`spec_decode_bar_probed`], but with no probe and size 0.
pub open spec fn spec_decode_bar_base(raw: u32, raw_upper: u32, last_slot: bool) -> Option<Bar> {
    if spec_bar_is_io(raw) {
        Some(Bar::Io { port: spec_bar_io_port(raw) })
    } else if spec_bar_width_raw(raw) == 0 {
        Some(
            Bar::Memory32 {
                address: spec_bar_address32(raw),
                size: 0,
                prefetchable: spec_bar_prefetchable(raw),
            },
        )
    } else if spec_bar_width_raw(raw) == 2 {
        if last_slot {
            None
        } else {
            Some(
                Bar::Memory64 {
                    address: ((raw_upper as u64) << 32) | (spec_bar_address32(raw) as u64),
                    size: 0,
                    prefetchable: spec_bar_prefetchable(raw),
                },
            )
        }
    } else {
        None
    }
}

/// What a probe of BAR slot `slot` of the `max_bars` slots at byte
/// offset `bars_base` returns under the channel model, where the masked
/// readback of a probe is the probe value itself.
pub open spec fn spec_bar_at<M: DwordAccessMethod>(
    m: M,
    region: PciAddress,
    bars_base: int,
    max_bars: int,
    slot: int,
) -> Option<Bar> {
    if slot < 0 || slot >= max_bars {
        None
    } else {
        spec_decode_bar_probed(
            m.dword_at(region, bars_base / 4 + slot),
            m.dword_at(region, bars_base / 4 + slot + 1),
            0xffff_fff0u32,
            0xffff_ffffu32,
            slot + 1 >= max_bars,
        )
    }
}

/// What a probe-free decode of BAR slot `slot` returns.
pub open spec fn spec_bar_base_at<M: DwordAccessMethod>(
    m: M,
    region: PciAddress,
    bars_base: int,
    max_bars: int,
    slot: int,
) -> Option<Bar> {
    if slot < 0 || slot >= max_bars {
        None
    } else {
        spec_decode_bar_base(
            m.dword_at(region, bars_base / 4 + slot),
            m.dword_at(region, bars_base / 4 + slot + 1),
            slot + 1 >= max_bars,
        )
    }
}

/// Between the two channel states, every dword outside the index range
/// `[lo, hi)` of the space of `a` is unchanged, and the set of functions
/// is unchanged.
pub open spec fn preserved_except_dwords<M: DwordAccessMethod>(
    m0: M,
    m1: M,
    a: PciAddress,
    lo: int,
    hi: int,
) -> bool {
    &&& forall|b: PciAddress, i: int|
        b != a || i < lo || i >= hi ==> #[trigger] m1.dword_at(b, i) == m0.dword_at(b, i)
    &&& forall|b: PciAddress|
        #[trigger] m1.spec_function_exists(b) == m0.spec_function_exists(b)
    &&& forall|b: PciAddress|
        #[trigger] m1.spec_has_multiple_functions(b) == m0.spec_has_multiple_functions(b)
}

/// The size a masked 32-bit probe readback denotes.
pub fn bar_size_from_readback(readback: u32) -> (r: Option<u32>)
    ensures
        r == spec_bar_size32(readback),
{
    let masked: u32 = readback & 0xffff_fff0;
    if masked == 0 {
        None
    } else {
        proof {
            axiom_u32_trailing_zeros(masked);
        }
        Some(1u32 << masked.trailing_zeros())
    }
}

/// The size the two probe readbacks of a 64-bit BAR denote.
pub fn bar_size64_from_readback(rb_low: u32, rb_high: u32) -> (r: Option<u64>)
    ensures
        r == spec_bar_size64(rb_low, rb_high),
{
    let masked: u32 = rb_low & 0xffff_fff0;
    if masked != 0 {
        proof {
            axiom_u32_trailing_zeros(masked);
        }
        Some(1u64 << masked.trailing_zeros())
    } else if rb_high != 0 {
        proof {
            axiom_u32_trailing_zeros(rb_high);
        }
        Some(1u64 << (rb_high.trailing_zeros() + 32))
    } else {
        None
    }
}

/// Decodes one BAR slot from the raw dwords and probe readbacks, with
/// no transaction of its own.  This carries the whole decode logic for
/// devices whose probe readbacks differ from what was written, which
/// the channel model cannot express.
pub fn decode_bar_probed(
    raw: u32,
    raw_upper: u32,
    rb_low: u32,
    rb_high: u32,
    last_slot: bool,
) -> (r: Option<Bar>)
    requires
        !spec_bar_reserved_width(raw),
    ensures
        r == spec_decode_bar_probed(raw, raw_upper, rb_low, rb_high, last_slot),
{
    if (raw & 1) == 1 {
        return Some(Bar::Io { port: (raw >> 2) << 2 });
    }
    let prefetchable: bool = (raw & 8) == 8;
    let address: u32 = (raw >> 4) << 4;
    if ((raw >> 1) & 3) == 0 {
        match bar_size_from_readback(rb_low) {
            None => None,
            Some(size) => Some(Bar::Memory32 { address, size, prefetchable }),
        }
    } else {
        if last_slot {
            return None;
        }
        match bar_size64_from_readback(rb_low, rb_high) {
            None => None,
            Some(size) => Some(
                Bar::Memory64 {
                    address: ((raw_upper as u64) << 32) | (address as u64),
                    size,
                    prefetchable,
                },
            ),
        }
    }
}

/// Decodes and size-probes one BAR slot.  The probe overwrites the
/// address bits with all-ones, reads them back, and restores the raw
/// dword(s) read at entry before returning on every path, so the device
/// ends exactly as it was found.
fn probe_bar_slot<M: DwordAccessMethod>(
    m: &mut M,
    region: PciAddress,
    bars_base: u16,
    max_bars: u8,
    slot: u8,
) -> (r: Option<Bar>)
    requires
        bars_base % 4 == 0,
        bars_base as int + 4 * (max_bars as int) <= 4096,
        old(m).spec_function_exists(region),
        slot < max_bars ==> !spec_bar_reserved_width(
            old(m).dword_at(region, bars_base as int / 4 + slot as int),
        ),
    ensures
        same_device_state(*old(m), *final(m)),
        r == spec_bar_at(*old(m), region, bars_base as int, max_bars as int, slot as int),
{
    if slot >= max_bars {
        return None;
    }
    proof {
        lemma_aligned_index(bars_base as int, slot as int, 0);
    }
    let off: u16 = bars_base + 4 * (slot as u16);
    let raw: u32 = m.read_dword(region, off);
    if (raw & 1) == 1 {
        return Some(Bar::Io { port: (raw >> 2) << 2 });
    }
    let prefetchable: bool = (raw & 8) == 8;
    let address: u32 = (raw >> 4) << 4;
    if ((raw >> 1) & 3) == 0 {
        m.write_dword(region, off, 0xffff_fff0u32);
        let readback: u32 = m.read_dword(region, off);
        m.write_dword(region, off, raw);
        match bar_size_from_readback(readback) {
            None => None,
            Some(size) => Some(Bar::Memory32 { address, size, prefetchable }),
        }
    } else {
        // The reserved encodings are excluded by the caller, so this is
        // the 64-bit kind, which spans this slot and the next one.
        if slot + 1 >= max_bars {
            return None;
        }
        proof {
            lemma_aligned_index(bars_base as int, slot as int + 1, 0);
        }
        let off_hi: u16 = off + 4;
        let raw_upper: u32 = m.read_dword(region, off_hi);
        m.write_dword(region, off, 0xffff_fff0u32);
        m.write_dword(region, off_hi, 0xffff_ffffu32);
        let readback_low: u32 = m.read_dword(region, off);
        let readback_high: u32 = m.read_dword(region, off_hi);
        m.write_dword(region, off, raw);
        m.write_dword(region, off_hi, raw_upper);
        match bar_size64_from_readback(readback_low, readback_high) {
            None => None,
            Some(size) => Some(
                Bar::Memory64 {
                    address: ((raw_upper as u64) << 32) | (address as u64),
                    size,
                    prefetchable,
                },
            ),
        }
    }
}

/// Reads and decodes one BAR slot without probing: the size is reported
/// as 0 and the device is not written.
fn read_bar_slot_base<M: DwordAccessMethod>(
    m: &M,
    region: PciAddress,
    bars_base: u16,
    max_bars: u8,
    slot: u8,
) -> (r: Option<Bar>)
    requires
        bars_base % 4 == 0,
        bars_base as int + 4 * (max_bars as int) <= 4096,
        m.spec_function_exists(region),
        slot < max_bars ==> !spec_bar_reserved_width(
            m.dword_at(region, bars_base as int / 4 + slot as int),
        ),
    ensures
        r == spec_bar_base_at(*m, region, bars_base as int, max_bars as int, slot as int),
{
    if slot >= max_bars {
        return None;
    }
    proof {
        lemma_aligned_index(bars_base as int, slot as int, 0);
    }
    let off: u16 = bars_base + 4 * (slot as u16);
    let raw: u32 = m.read_dword(region, off);
    if (raw & 1) == 1 {
        return Some(Bar::Io { port: (raw >> 2) << 2 });
    }
    let prefetchable: bool = (raw & 8) == 8;
    let address: u32 = (raw >> 4) << 4;
    if ((raw >> 1) & 3) == 0 {
        Some(Bar::Memory32 { address, size: 0, prefetchable })
    } else {
        if slot + 1 >= max_bars {
            return None;
        }
        proof {
            lemma_aligned_index(bars_base as int, slot as int + 1, 0);
        }
        let raw_upper: u32 = m.read_dword(region, off + 4);
        Some(
            Bar::Memory64 {
                address: ((raw_upper as u64) << 32) | (address as u64),
                size: 0,
                prefetchable,
            },
        )
    }
}

/// Writes a caller-chosen base into one BAR slot: the slot is re-decoded
/// (with a probe) to learn its width, then the value is written as one
/// dword, or split across the slot pair of a 64-bit BAR.
fn write_bar_slot<M: DwordAccessMethod>(
    m: &mut M,
    region: PciAddress,
    bars_base: u16,
    max_bars: u8,
    slot: u8,
    value: u64,
) -> (r: Result<(), BarWriteError>)
    requires
        bars_base % 4 == 0,
        bars_base as int + 4 * (max_bars as int) <= 4096,
        old(m).spec_function_exists(region),
        slot < max_bars ==> !spec_bar_reserved_width(
            old(m).dword_at(region, bars_base as int / 4 + slot as int),
        ),
    ensures
        ({
            let decoded = spec_bar_at(*old(m), region, bars_base as int, max_bars as int, slot as int);
            let bidx = bars_base as int / 4 + slot as int;
            match decoded {
                Option::None => r == Err::<(), BarWriteError>(BarWriteError::NoSuchBar)
                    && same_device_state(*old(m), *final(m)),
                Option::Some(bar) => match bar {
                    Bar::Memory64 { .. } => {
                        &&& r == Ok::<(), BarWriteError>(())
                        &&& final(m).dword_at(region, bidx) == (value & 0xffff_ffff) as u32
                        &&& final(m).dword_at(region, bidx + 1) == (value >> 32) as u32
                        &&& preserved_except_dwords(*old(m), *final(m), region, bidx, bidx + 2)
                    },
                    _ => {
                        if value > 0xffff_ffff {
                            r == Err::<(), BarWriteError>(BarWriteError::InvalidValue)
                                && same_device_state(*old(m), *final(m))
                        } else {
                            &&& r == Ok::<(), BarWriteError>(())
                            &&& final(m).dword_at(region, bidx) == value as u32
                            &&& preserved_except_dwords(*old(m), *final(m), region, bidx, bidx + 1)
                        }
                    },
                },
            }
        }),
{
    let decoded: Option<Bar> = probe_bar_slot(m, region, bars_base, max_bars, slot);
    match decoded {
        None => Err(BarWriteError::NoSuchBar),
        Some(Bar::Memory64 { .. }) => {
            proof {
                lemma_aligned_index(bars_base as int, slot as int, 0);
                lemma_aligned_index(bars_base as int, slot as int + 1, 0);
            }
            let off: u16 = bars_base + 4 * (slot as u16);
            m.write_dword(region, off, (value & 0xffff_ffff) as u32);
            m.write_dword(region, off + 4, (value >> 32) as u32);
            Ok(())
        },
        Some(_) => {
            if value > 0xffff_ffff {
                return Err(BarWriteError::InvalidValue);
            }
            proof {
                lemma_aligned_index(bars_base as int, slot as int, 0);
            }
            let off: u16 = bars_base + 4 * (slot as u16);
            m.write_dword(region, off, value as u32);
            Ok(())
        },
    }
}

/// The layout tag of a type-0 (endpoint) header: the predefined header,
/// six BAR slots at 0x10, the CardBus CIS pointer at 0x28, the subsystem
/// ids at 0x2C, the expansion ROM base at 0x30, the capability pointer
/// at 0x34, the interrupt registers at 0x3C and the grant/latency limits
/// at 0x3E.
pub struct EndpointHeader;

impl EndpointHeader {
    /// The number of BAR slots of an endpoint header.
    pub const MAX_BARS: u8 = 6;

    /// Reinterprets a predefined-header accessor as an endpoint header,
    /// if the function's header-type field says it is one.
    pub fn from_header<M: DwordAccessMethod>(
        header_acc: &DwordAccessor<PciHeader>,
        m: &M,
    ) -> (r: Option<DwordAccessor<EndpointHeader>>)
        requires
            header_acc.spec_access().spec_readable(),
            m.spec_function_exists(header_acc.spec_region()),
            header_acc.spec_offset() % 4 == 0,
            header_acc.spec_offset() + 16 <= 4096,
        ensures
            (r is Some) == (spec_header_type_at(
                *m,
                header_acc.spec_region(),
                header_acc.spec_offset() as int,
            ) == HeaderType::Endpoint),
            r matches Some(a) ==> {
                &&& a.spec_region() == header_acc.spec_region()
                &&& a.spec_offset() == header_acc.spec_offset()
                &&& a.spec_access() == header_acc.spec_access()
            },
    {
        proof {
            lemma_aligned_index(header_acc.spec_offset() as int, 3, 0);
        }
        let config: HeaderTypeDword = header_acc.config().read(m);
        match config.header_type() {
            HeaderType::Endpoint => Some(header_acc.cast::<EndpointHeader>()),
            _ => None,
        }
    }

    /// Starts the capability-list traversal for an endpoint header.  The
    /// status word's capability-list bit is consulted first: when it is
    /// unset the traversal starts at the 0 sentinel, whatever the
    /// capability pointer holds.
    pub fn capabilities<M: DwordAccessMethod>(
        acc: &DwordAccessor<EndpointHeader>,
        m: &M,
    ) -> (it: CapabilityIterator)
        requires
            acc.spec_access().spec_readable(),
            m.spec_function_exists(acc.spec_region()),
            acc.spec_offset() % 4 == 0,
            acc.spec_offset() + 0x40 <= 4096,
        ensures
            it.spec_acc().spec_region() == acc.spec_region(),
            it.spec_acc().spec_access() == acc.spec_access(),
            it.spec_acc().spec_offset() == spec_capabilities_start(
                *m,
                acc.spec_region(),
                acc.spec_offset() as int,
            ),
    {
        capabilities_of_header(&acc.cast::<PciHeader>(), m)
    }

    /// The contents of BAR slot `slot`, taking both slots when the BAR
    /// occupies 64 bits.  Empty and out-of-range slots yield `None`.
    ///
    /// The size probe overwrites the register and restores it before
    /// returning, on every path: the device state at return equals the
    /// state at entry.  The intermediate states are real device state,
    /// so callers must hold off concurrent access to the region for the
    /// whole call.  When slot `x` decodes as 64-bit memory, slot `x + 1`
    /// holds its upper address half and must not be decoded on its own.
    pub fn bar<M: DwordAccessMethod>(
        acc: &DwordAccessor<EndpointHeader>,
        m: &mut M,
        slot: u8,
    ) -> (r: Option<Bar>)
        requires
            acc.spec_access().spec_readable(),
            acc.spec_access().spec_writable(),
            acc.spec_offset() % 4 == 0,
            acc.spec_offset() + 0x40 <= 4096,
            old(m).spec_function_exists(acc.spec_region()),
            slot < 6 ==> !spec_bar_reserved_width(
                old(m).dword_at(
                    acc.spec_region(),
                    (acc.spec_offset() as int + 0x10) / 4 + slot as int,
                ),
            ),
        ensures
            same_device_state(*old(m), *final(m)),
            r == spec_bar_at(
                *old(m),
                acc.spec_region(),
                acc.spec_offset() as int + 0x10,
                6,
                slot as int,
            ),
    {
        proof {
            lemma_aligned_index(acc.spec_offset() as int, 4, 0);
        }
        probe_bar_slot(m, acc.region(), acc.start_offset() + 0x10, 6, slot)
    }

    /// Like [`Self::bar`], but without the size probe: the device is
    /// not written and the size is reported as 0.
    pub fn bar_base_only<M: DwordAccessMethod>(
        acc: &DwordAccessor<EndpointHeader>,
        m: &M,
        slot: u8,
    ) -> (r: Option<Bar>)
        requires
            acc.spec_access().spec_readable(),
            acc.spec_offset() % 4 == 0,
            acc.spec_offset() + 0x40 <= 4096,
            m.spec_function_exists(acc.spec_region()),
            slot < 6 ==> !spec_bar_reserved_width(
                m.dword_at(acc.spec_region(), (acc.spec_offset() as int + 0x10) / 4 + slot as int),
            ),
        ensures
            r == spec_bar_base_at(
                *m,
                acc.spec_region(),
                acc.spec_offset() as int + 0x10,
                6,
                slot as int,
            ),
    {
        proof {
            lemma_aligned_index(acc.spec_offset() as int, 4, 0);
        }
        read_bar_slot_base(m, acc.region(), acc.start_offset() + 0x10, 6, slot)
    }

    /// Writes a caller-chosen base address into BAR slot `slot`.  The
    /// slot is re-decoded (with a probe) to learn its width; a 64-bit
    /// BAR takes the value split across its slot pair, a 32-bit or I/O
    /// BAR takes it as one dword and refuses a value over 32 bits.
    pub fn write_bar<M: DwordAccessMethod>(
        acc: &DwordAccessor<EndpointHeader>,
        m: &mut M,
        slot: u8,
        value: u64,
    ) -> (r: Result<(), BarWriteError>)
        requires
            acc.spec_access().spec_readable(),
            acc.spec_access().spec_writable(),
            acc.spec_offset() % 4 == 0,
            acc.spec_offset() + 0x40 <= 4096,
            old(m).spec_function_exists(acc.spec_region()),
            slot < 6 ==> !spec_bar_reserved_width(
                old(m).dword_at(
                    acc.spec_region(),
                    (acc.spec_offset() as int + 0x10) / 4 + slot as int,
                ),
            ),
        ensures
            ({
                let decoded = spec_bar_at(
                    *old(m),
                    acc.spec_region(),
                    acc.spec_offset() as int + 0x10,
                    6,
                    slot as int,
                );
                let bidx = (acc.spec_offset() as int + 0x10) / 4 + slot as int;
                match decoded {
                    Option::None => r == Err::<(), BarWriteError>(BarWriteError::NoSuchBar)
                        && same_device_state(*old(m), *final(m)),
                    Option::Some(bar) => match bar {
                        Bar::Memory64 { .. } => {
                            &&& r == Ok::<(), BarWriteError>(())
                            &&& final(m).dword_at(acc.spec_region(), bidx) == (value
                                & 0xffff_ffff) as u32
                            &&& final(m).dword_at(acc.spec_region(), bidx + 1) == (value
                                >> 32) as u32
                            &&& preserved_except_dwords(
                                *old(m),
                                *final(m),
                                acc.spec_region(),
                                bidx,
                                bidx + 2,
                            )
                        },
                        _ => {
                            if value > 0xffff_ffff {
                                r == Err::<(), BarWriteError>(BarWriteError::InvalidValue)
                                    && same_device_state(*old(m), *final(m))
                            } else {
                                &&& r == Ok::<(), BarWriteError>(())
                                &&& final(m).dword_at(acc.spec_region(), bidx) == value as u32
                                &&& preserved_except_dwords(
                                    *old(m),
                                    *final(m),
                                    acc.spec_region(),
                                    bidx,
                                    bidx + 1,
                                )
                            }
                        },
                    },
                }
            }),
    {
        proof {
            lemma_aligned_index(acc.spec_offset() as int, 4, 0);
        }
        write_bar_slot(m, acc.region(), acc.start_offset() + 0x10, 6, slot, value)
    }
}

/// The shared capability-list entry point of the endpoint and bridge
/// headers, whose capability pointer lives at the same offset.
fn capabilities_of_header<M: DwordAccessMethod>(
    header_acc: &DwordAccessor<PciHeader>,
    m: &M,
) -> (it: CapabilityIterator)
    requires
        header_acc.spec_access().spec_readable(),
        m.spec_function_exists(header_acc.spec_region()),
        header_acc.spec_offset() % 4 == 0,
        header_acc.spec_offset() + 0x40 <= 4096,
    ensures
        it.spec_acc().spec_region() == header_acc.spec_region(),
        it.spec_acc().spec_access() == header_acc.spec_access(),
        it.spec_acc().spec_offset() == spec_capabilities_start(
            *m,
            header_acc.spec_region(),
            header_acc.spec_offset() as int,
        ),
{
    proof {
        lemma_aligned_index(header_acc.spec_offset() as int, 1, 0);
        lemma_aligned_index(header_acc.spec_offset() as int, 13, 0);
    }
    let cs: CmdSts = header_acc.cmdsts().read(m);
    let first_offset: u8 = if cs.status().has_capability_list() {
        header_acc.field::<u8>(0x34).read(m)
    } else {
        0
    };
    CapabilityIterator::new(
        header_acc.cast::<CapabilityHeader<u16>>().with_offset(first_offset as u16),
    )
}

impl DwordAccessor<EndpointHeader> {
    /// The predefined header the endpoint header starts with.
    pub fn header(&self) -> (r: DwordAccessor<PciHeader>)
        ensures
            r.spec_region() == self.spec_region(),
            r.spec_offset() == self.spec_offset(),
            r.spec_access() == self.spec_access(),
    {
        self.cast::<PciHeader>()
    }

    /// BAR slot `slot` of the six slots at offset 0x10.
    pub fn bar_slot(&self, slot: u8) -> (r: DwordAccessor<u32>)
        requires
            slot < 6,
            self.spec_offset() + 0x40 <= 4096,
        ensures
            r.spec_region() == self.spec_region(),
            r.spec_offset() == self.spec_offset() + 0x10 + 4 * slot,
            r.spec_access() == self.spec_access(),
    {
        self.field::<u32>(0x10 + 4 * (slot as u16))
    }

    /// The CardBus CIS pointer at offset 0x28.
    pub fn cardbus_cis_pointer(&self) -> (r: DwordAccessor<u32>)
        requires
            self.spec_offset() + 0x40 <= 4096,
        ensures
            r.spec_region() == self.spec_region(),
            r.spec_offset() == self.spec_offset() + 0x28,
            r.spec_access() == self.spec_access(),
    {
        self.field::<u32>(0x28)
    }

    /// The subsystem vendor/device ids at offset 0x2C.
    pub fn subsystem_ids(&self) -> (r: DwordAccessor<IDs>)
        requires
            self.spec_offset() + 0x40 <= 4096,
        ensures
            r.spec_region() == self.spec_region(),
            r.spec_offset() == self.spec_offset() + 0x2c,
            r.spec_access() == self.spec_access(),
    {
        self.field::<IDs>(0x2c)
    }

    /// The expansion ROM base address at offset 0x30.
    pub fn expansion_rom_base_address(&self) -> (r: DwordAccessor<u32>)
        requires
            self.spec_offset() + 0x40 <= 4096,
        ensures
            r.spec_region() == self.spec_region(),
            r.spec_offset() == self.spec_offset() + 0x30,
            r.spec_access() == self.spec_access(),
    {
        self.field::<u32>(0x30)
    }

    /// The capability pointer byte at offset 0x34.
    pub fn capabilities_pointer(&self) -> (r: DwordAccessor<u8>)
        requires
            self.spec_offset() + 0x40 <= 4096,
        ensures
            r.spec_region() == self.spec_region(),
            r.spec_offset() == self.spec_offset() + 0x34,
            r.spec_access() == self.spec_access(),
    {
        self.field::<u8>(0x34)
    }

    /// The interrupt line/pin registers at offset 0x3C.
    pub fn interrupt(&self) -> (r: DwordAccessor<Intr>)
        requires
            self.spec_offset() + 0x40 <= 4096,
        ensures
            r.spec_region() == self.spec_region(),
            r.spec_offset() == self.spec_offset() + 0x3c,
            r.spec_access() == self.spec_access(),
    {
        self.field::<Intr>(0x3c)
    }

    /// The min-grant/max-latency registers at offset 0x3E.
    pub fn limits(&self) -> (r: DwordAccessor<EPLimits>)
        requires
            self.spec_offset() + 0x40 <= 4096,
        ensures
            r.spec_region() == self.spec_region(),
            r.spec_offset() == self.spec_offset() + 0x3e,
            r.spec_access() == self.spec_access(),
    {
        self.field::<EPLimits>(0x3e)
    }
}

/// The layout tag of a type-1 (PCI-PCI bridge) header: the predefined
/// header, two BAR slots at 0x10, the bus numbers at 0x18, the I/O and
/// memory windows, the capability pointer at 0x34, the expansion ROM
/// base at 0x38, and the interrupt and bridge-control registers at 0x3C.
pub struct PciPciBridgeHeader;

impl PciPciBridgeHeader {
    /// The number of BAR slots of a bridge header.
    pub const MAX_BARS: u8 = 2;

    /// Reinterprets a predefined-header accessor as a bridge header, if
    /// the function's header-type field says it is one.
    pub fn from_header<M: DwordAccessMethod>(
        header_acc: &DwordAccessor<PciHeader>,
        m: &M,
    ) -> (r: Option<DwordAccessor<PciPciBridgeHeader>>)
        requires
            header_acc.spec_access().spec_readable(),
            m.spec_function_exists(header_acc.spec_region()),
            header_acc.spec_offset() % 4 == 0,
            header_acc.spec_offset() + 16 <= 4096,
        ensures
            (r is Some) == (spec_header_type_at(
                *m,
                header_acc.spec_region(),
                header_acc.spec_offset() as int,
            ) == HeaderType::PciPciBridge),
            r matches Some(a) ==> {
                &&& a.spec_region() == header_acc.spec_region()
                &&& a.spec_offset() == header_acc.spec_offset()
                &&& a.spec_access() == header_acc.spec_access()
            },
    {
        proof {
            lemma_aligned_index(header_acc.spec_offset() as int, 3, 0);
        }
        let config: HeaderTypeDword = header_acc.config().read(m);
        match config.header_type() {
            HeaderType::PciPciBridge => Some(header_acc.cast::<PciPciBridgeHeader>()),
            _ => None,
        }
    }

    /// Starts the capability-list traversal for a bridge header, exactly
    /// as for an endpoint header.
    pub fn capabilities<M: DwordAccessMethod>(
        acc: &DwordAccessor<PciPciBridgeHeader>,
        m: &M,
    ) -> (it: CapabilityIterator)
        requires
            acc.spec_access().spec_readable(),
            m.spec_function_exists(acc.spec_region()),
            acc.spec_offset() % 4 == 0,
            acc.spec_offset() + 0x40 <= 4096,
        ensures
            it.spec_acc().spec_region() == acc.spec_region(),
            it.spec_acc().spec_access() == acc.spec_access(),
            it.spec_acc().spec_offset() == spec_capabilities_start(
                *m,
                acc.spec_region(),
                acc.spec_offset() as int,
            ),
    {
        capabilities_of_header(&acc.cast::<PciHeader>(), m)
    }

    /// The contents of BAR slot `slot` of the two bridge slots, exactly
    /// as [`EndpointHeader::bar`]: probed for size, restored before
    /// returning on every path.
    pub fn bar<M: DwordAccessMethod>(
        acc: &DwordAccessor<PciPciBridgeHeader>,
        m: &mut M,
        slot: u8,
    ) -> (r: Option<Bar>)
        requires
            acc.spec_access().spec_readable(),
            acc.spec_access().spec_writable(),
            acc.spec_offset() % 4 == 0,
            acc.spec_offset() + 0x40 <= 4096,
            old(m).spec_function_exists(acc.spec_region()),
            slot < 2 ==> !spec_bar_reserved_width(
                old(m).dword_at(
                    acc.spec_region(),
                    (acc.spec_offset() as int + 0x10) / 4 + slot as int,
                ),
            ),
        ensures
            same_device_state(*old(m), *final(m)),
            r == spec_bar_at(
                *old(m),
                acc.spec_region(),
                acc.spec_offset() as int + 0x10,
                2,
                slot as int,
            ),
    {
        proof {
            lemma_aligned_index(acc.spec_offset() as int, 4, 0);
        }
        probe_bar_slot(m, acc.region(), acc.start_offset() + 0x10, 2, slot)
    }

    /// Like [`Self::bar`], but without the size probe: the device is
    /// not written and the size is reported as 0.
    pub fn bar_base_only<M: DwordAccessMethod>(
        acc: &DwordAccessor<PciPciBridgeHeader>,
        m: &M,
        slot: u8,
    ) -> (r: Option<Bar>)
        requires
            acc.spec_access().spec_readable(),
            acc.spec_offset() % 4 == 0,
            acc.spec_offset() + 0x40 <= 4096,
            m.spec_function_exists(acc.spec_region()),
            slot < 2 ==> !spec_bar_reserved_width(
                m.dword_at(acc.spec_region(), (acc.spec_offset() as int + 0x10) / 4 + slot as int),
            ),
        ensures
            r == spec_bar_base_at(
                *m,
                acc.spec_region(),
                acc.spec_offset() as int + 0x10,
                2,
                slot as int,
            ),
    {
        proof {
            lemma_aligned_index(acc.spec_offset() as int, 4, 0);
        }
        read_bar_slot_base(m, acc.region(), acc.start_offset() + 0x10, 2, slot)
    }

    /// Writes a caller-chosen base address into BAR slot `slot`, exactly
    /// as [`EndpointHeader::write_bar`].
    pub fn write_bar<M: DwordAccessMethod>(
        acc: &DwordAccessor<PciPciBridgeHeader>,
        m: &mut M,
        slot: u8,
        value: u64,
    ) -> (r: Result<(), BarWriteError>)
        requires
            acc.spec_access().spec_readable(),
            acc.spec_access().spec_writable(),
            acc.spec_offset() % 4 == 0,
            acc.spec_offset() + 0x40 <= 4096,
            old(m).spec_function_exists(acc.spec_region()),
            slot < 2 ==> !spec_bar_reserved_width(
                old(m).dword_at(
                    acc.spec_region(),
                    (acc.spec_offset() as int + 0x10) / 4 + slot as int,
                ),
            ),
        ensures
            ({
                let decoded = spec_bar_at(
                    *old(m),
                    acc.spec_region(),
                    acc.spec_offset() as int + 0x10,
                    2,
                    slot as int,
                );
                let bidx = (acc.spec_offset() as int + 0x10) / 4 + slot as int;
                match decoded {
                    Option::None => r == Err::<(), BarWriteError>(BarWriteError::NoSuchBar)
                        && same_device_state(*old(m), *final(m)),
                    Option::Some(bar) => match bar {
                        Bar::Memory64 { .. } => {
                            &&& r == Ok::<(), BarWriteError>(())
                            &&& final(m).dword_at(acc.spec_region(), bidx) == (value
                                & 0xffff_ffff) as u32
                            &&& final(m).dword_at(acc.spec_region(), bidx + 1) == (value
                                >> 32) as u32
                            &&& preserved_except_dwords(
                                *old(m),
                                *final(m),
                                acc.spec_region(),
                                bidx,
                                bidx + 2,
                            )
                        },
                        _ => {
                            if value > 0xffff_ffff {
                                r == Err::<(), BarWriteError>(BarWriteError::InvalidValue)
                                    && same_device_state(*old(m), *final(m))
                            } else {
                                &&& r == Ok::<(), BarWriteError>(())
                                &&& final(m).dword_at(acc.spec_region(), bidx) == value as u32
                                &&& preserved_except_dwords(
                                    *old(m),
                                    *final(m),
                                    acc.spec_region(),
                                    bidx,
                                    bidx + 1,
                                )
                            }
                        },
                    },
                }
            }),
    {
        proof {
            lemma_aligned_index(acc.spec_offset() as int, 4, 0);
        }
        write_bar_slot(m, acc.region(), acc.start_offset() + 0x10, 2, slot, value)
    }
}

impl DwordAccessor<PciPciBridgeHeader> {
    /// The predefined header the bridge header starts with.
    pub fn header(&self) -> (r: DwordAccessor<PciHeader>)
        ensures
            r.spec_region() == self.spec_region(),
            r.spec_offset() == self.spec_offset(),
            r.spec_access() == self.spec_access(),
    {
        self.cast::<PciHeader>()
    }

    /// BAR slot `slot` of the two slots at offset 0x10.
    pub fn bar_slot(&self, slot: u8) -> (r: DwordAccessor<u32>)
        requires
            slot < 2,
            self.spec_offset() + 0x40 <= 4096,
        ensures
            r.spec_region() == self.spec_region(),
            r.spec_offset() == self.spec_offset() + 0x10 + 4 * slot,
            r.spec_access() == self.spec_access(),
    {
        self.field::<u32>(0x10 + 4 * (slot as u16))
    }

    /// The primary/secondary/subordinate bus numbers at offset 0x18.
    pub fn bus_nos(&self) -> (r: DwordAccessor<BusNos>)
        requires
            self.spec_offset() + 0x40 <= 4096,
        ensures
            r.spec_region() == self.spec_region(),
            r.spec_offset() == self.spec_offset() + 0x18,
            r.spec_access() == self.spec_access(),
    {
        self.field::<BusNos>(0x18)
    }

    /// The I/O window base register at offset 0x1C.
    pub fn iobase(&self) -> (r: DwordAccessor<u8>)
        requires
            self.spec_offset() + 0x40 <= 4096,
        ensures
            r.spec_region() == self.spec_region(),
            r.spec_offset() == self.spec_offset() + 0x1c,
            r.spec_access() == self.spec_access(),
    {
        self.field::<u8>(0x1c)
    }

    /// The I/O window limit register at offset 0x1D.
    pub fn iolimit(&self) -> (r: DwordAccessor<u8>)
        requires
            self.spec_offset() + 0x40 <= 4096,
        ensures
            r.spec_region() == self.spec_region(),
            r.spec_offset() == self.spec_offset() + 0x1d,
            r.spec_access() == self.spec_access(),
    {
        self.field::<u8>(0x1d)
    }

    /// The secondary status register at offset 0x1E.
    pub fn secondary_status(&self) -> (r: DwordAccessor<Status>)
        requires
            self.spec_offset() + 0x40 <= 4096,
        ensures
            r.spec_region() == self.spec_region(),
            r.spec_offset() == self.spec_offset() + 0x1e,
            r.spec_access() == self.spec_access(),
    {
        self.field::<Status>(0x1e)
    }

    /// The memory window base register at offset 0x20.
    pub fn memory_base(&self) -> (r: DwordAccessor<u16>)
        requires
            self.spec_offset() + 0x40 <= 4096,
        ensures
            r.spec_region() == self.spec_region(),
            r.spec_offset() == self.spec_offset() + 0x20,
            r.spec_access() == self.spec_access(),
    {
        self.field::<u16>(0x20)
    }

    /// The memory window limit register at offset 0x22.
    pub fn memory_limit(&self) -> (r: DwordAccessor<u16>)
        requires
            self.spec_offset() + 0x40 <= 4096,
        ensures
            r.spec_region() == self.spec_region(),
            r.spec_offset() == self.spec_offset() + 0x22,
            r.spec_access() == self.spec_access(),
    {
        self.field::<u16>(0x22)
    }

    /// The prefetchable memory window base register at offset 0x24.
    pub fn prefetchable_memory_base(&self) -> (r: DwordAccessor<u16>)
        requires
            self.spec_offset() + 0x40 <= 4096,
        ensures
            r.spec_region() == self.spec_region(),
            r.spec_offset() == self.spec_offset() + 0x24,
            r.spec_access() == self.spec_access(),
    {
        self.field::<u16>(0x24)
    }

    /// The prefetchable memory window limit register at offset 0x26.
    pub fn prefetchable_memory_limit(&self) -> (r: DwordAccessor<u16>)
        requires
            self.spec_offset() + 0x40 <= 4096,
        ensures
            r.spec_region() == self.spec_region(),
            r.spec_offset() == self.spec_offset() + 0x26,
            r.spec_access() == self.spec_access(),
    {
        self.field::<u16>(0x26)
    }

    /// The upper 32 bits of the prefetchable window base, offset 0x28.
    pub fn prefetchable_base_upper_32(&self) -> (r: DwordAccessor<u32>)
        requires
            self.spec_offset() + 0x40 <= 4096,
        ensures
            r.spec_region() == self.spec_region(),
            r.spec_offset() == self.spec_offset() + 0x28,
            r.spec_access() == self.spec_access(),
    {
        self.field::<u32>(0x28)
    }

    /// The upper 32 bits of the prefetchable window limit, offset 0x2C.
    pub fn prefetchable_limit_upper_32(&self) -> (r: DwordAccessor<u32>)
        requires
            self.spec_offset() + 0x40 <= 4096,
        ensures
            r.spec_region() == self.spec_region(),
            r.spec_offset() == self.spec_offset() + 0x2c,
            r.spec_access() == self.spec_access(),
    {
        self.field::<u32>(0x2c)
    }

    /// The upper 16 bits of the I/O window base, offset 0x30.
    pub fn iobase_upper_16(&self) -> (r: DwordAccessor<u16>)
        requires
            self.spec_offset() + 0x40 <= 4096,
        ensures
            r.spec_region() == self.spec_region(),
            r.spec_offset() == self.spec_offset() + 0x30,
            r.spec_access() == self.spec_access(),
    {
        self.field::<u16>(0x30)
    }

    /// The upper 16 bits of the I/O window limit, offset 0x32.
    pub fn iolimit_upper_16(&self) -> (r: DwordAccessor<u16>)
        requires
            self.spec_offset() + 0x40 <= 4096,
        ensures
            r.spec_region() == self.spec_region(),
            r.spec_offset() == self.spec_offset() + 0x32,
            r.spec_access() == self.spec_access(),
    {
        self.field::<u16>(0x32)
    }

    /// The capability pointer byte at offset 0x34.
    pub fn capabilities_pointer(&self) -> (r: DwordAccessor<u8>)
        requires
            self.spec_offset() + 0x40 <= 4096,
        ensures
            r.spec_region() == self.spec_region(),
            r.spec_offset() == self.spec_offset() + 0x34,
            r.spec_access() == self.spec_access(),
    {
        self.field::<u8>(0x34)
    }

    /// The expansion ROM base address at offset 0x38.
    pub fn expansion_rom_base_address(&self) -> (r: DwordAccessor<u32>)
        requires
            self.spec_offset() + 0x40 <= 4096,
        ensures
            r.spec_region() == self.spec_region(),
            r.spec_offset() == self.spec_offset() + 0x38,
            r.spec_access() == self.spec_access(),
    {
        self.field::<u32>(0x38)
    }

    /// The interrupt line/pin registers at offset 0x3C.
    pub fn interrupt(&self) -> (r: DwordAccessor<Intr>)
        requires
            self.spec_offset() + 0x40 <= 4096,
        ensures
            r.spec_region() == self.spec_region(),
            r.spec_offset() == self.spec_offset() + 0x3c,
            r.spec_access() == self.spec_access(),
    {
        self.field::<Intr>(0x3c)
    }

    /// The bridge control register at offset 0x3E.
    pub fn bridge_control(&self) -> (r: DwordAccessor<BridgeControl>)
        requires
            self.spec_offset() + 0x40 <= 4096,
        ensures
            r.spec_region() == self.spec_region(),
            r.spec_offset() == self.spec_offset() + 0x3e,
            r.spec_access() == self.spec_access(),
    {
        self.field::<BridgeControl>(0x3e)
    }
}

} // verus!
