//! The Message Signaled Interrupt (MSI) capability codec.
//!
//! The MSI capability exists in two hardware shapes selected by bit 7 of
//! its control word: a 32-bit variant (header, one address word, data)
//! and a 64-bit variant (header, two address words, data, mask and
//! pending words).  [`MsiCapability`] is the canonical 64-bit shape; the
//! codec reads either variant into it, zero-filling the fields the
//! 32-bit variant lacks, and writes back only the fields the device's
//! variant has.

use vstd::bytes::*;
use vstd::prelude::*;

use crate::accessor::{
    bytes_at, lemma_aligned_index, preserved_outside, spec_dword_value, DwordAccessor,
    RegisterValue,
};
use crate::address::{DwordAccessMethod, PciAddress};
use crate::bits::{get_bit16, spec_bit16, spec_with_bit16, with_bit16};
use crate::capability::{spec_capability_header_at, CapabilityHeader};

verus! {

/// The capability id of the MSI capability.
pub const MSI_CAPABILITY_ID: u8 = 0x05;

/// How many MSI interrupt vectors a function can send, as the log2 count
/// held in the control word.  The device modifies the low bits of the
/// vector to send multiple messages, so the vector block must be aligned
/// accordingly.
#[derive(Clone, Copy, Debug, PartialEq, Eq, Structural)]
pub enum MultipleMessageSupport {
    /// One interrupt; the vector is used as it is.
    Int1,
    /// Two interrupts.
    Int2,
    /// Four interrupts.
    Int4,
    /// Eight interrupts.
    Int8,
    /// Sixteen interrupts.
    Int16,
    /// Thirty-two interrupts.
    Int32,
}

impl MultipleMessageSupport {
    /// The 3-bit field value of this count.
    pub open spec fn spec_raw(self) -> u8 {
        match self {
            MultipleMessageSupport::Int1 => 0,
            MultipleMessageSupport::Int2 => 1,
            MultipleMessageSupport::Int4 => 2,
            MultipleMessageSupport::Int8 => 3,
            MultipleMessageSupport::Int16 => 4,
            MultipleMessageSupport::Int32 => 5,
        }
    }

    /// The count a 3-bit field value denotes, if any (6 and 7 are
    /// reserved).
    pub open spec fn spec_from_raw(value: u8) -> Option<MultipleMessageSupport> {
        if value == 0 {
            Some(MultipleMessageSupport::Int1)
        } else if value == 1 {
            Some(MultipleMessageSupport::Int2)
        } else if value == 2 {
            Some(MultipleMessageSupport::Int4)
        } else if value == 3 {
            Some(MultipleMessageSupport::Int8)
        } else if value == 4 {
            Some(MultipleMessageSupport::Int16)
        } else if value == 5 {
            Some(MultipleMessageSupport::Int32)
        } else {
            None
        }
    }

    /// The count a 3-bit field value denotes, with the reserved values
    /// falling back to one interrupt.
    pub open spec fn spec_from_raw_or_int1(value: u8) -> MultipleMessageSupport {
        match Self::spec_from_raw(value) {
            Option::Some(v) => v,
            Option::None => MultipleMessageSupport::Int1,
        }
    }

    /// The smaller of two counts.
    pub open spec fn spec_min(self, other: MultipleMessageSupport) -> MultipleMessageSupport {
        if self.spec_raw() <= other.spec_raw() {
            self
        } else {
            other
        }
    }

    /// The 3-bit field value of this count.
    pub fn raw(self) -> (r: u8)
        ensures
            r == self.spec_raw(),
    {
        match self {
            MultipleMessageSupport::Int1 => 0,
            MultipleMessageSupport::Int2 => 1,
            MultipleMessageSupport::Int4 => 2,
            MultipleMessageSupport::Int8 => 3,
            MultipleMessageSupport::Int16 => 4,
            MultipleMessageSupport::Int32 => 5,
        }
    }

    /// The count a 3-bit field value denotes, if any.
    pub fn from_raw(value: u8) -> (r: Option<MultipleMessageSupport>)
        ensures
            r == Self::spec_from_raw(value),
    {
        match value {
            0 => Some(MultipleMessageSupport::Int1),
            1 => Some(MultipleMessageSupport::Int2),
            2 => Some(MultipleMessageSupport::Int4),
            3 => Some(MultipleMessageSupport::Int8),
            4 => Some(MultipleMessageSupport::Int16),
            5 => Some(MultipleMessageSupport::Int32),
            _ => None,
        }
    }
}

/// When the device should trigger the interrupt.
#[derive(Clone, Copy, Debug, PartialEq, Eq, Structural)]
pub enum TriggerMode {
    Edge,
    LevelAssert,
    LevelDeassert,
}

impl TriggerMode {
    /// The 2-bit field value of this mode.
    pub open spec fn spec_raw(self) -> u8 {
        match self {
            TriggerMode::Edge => 0,
            TriggerMode::LevelAssert => 3,
            TriggerMode::LevelDeassert => 2,
        }
    }

    /// The 2-bit field value of this mode.
    pub fn raw(self) -> (r: u8)
        ensures
            r == self.spec_raw(),
    {
        match self {
            TriggerMode::Edge => 0,
            TriggerMode::LevelAssert => 3,
            TriggerMode::LevelDeassert => 2,
        }
    }
}

/// The MSI control word: bit 0 enables MSI, bits 1–3 hold the capable
/// message count, bits 4–6 the enabled message count, bit 7 the 64-bit
/// address capability and bit 8 the per-vector masking capability.
#[derive(Clone, Copy, Debug, PartialEq, Eq, Structural)]
pub struct MessageControl(u16);

impl MessageControl {
    /// The raw 16-bit control word.
    pub closed spec fn spec_raw(self) -> u16 {
        self.0
    }

    /// Bit 0: MSI is enabled.
    pub open spec fn spec_msi_enable(self) -> bool {
        spec_bit16(self.spec_raw(), 0)
    }

    /// Bits 1–3: the advertised (capable) log2 message count.
    pub open spec fn spec_multiple_message_capable_raw(self) -> u8 {
        ((self.spec_raw() >> 1) & 7) as u8
    }

    /// Bits 4–6: the enabled log2 message count.
    pub open spec fn spec_multiple_message_enable_raw(self) -> u8 {
        ((self.spec_raw() >> 4) & 7) as u8
    }

    /// The enabled message count, with the reserved field values falling
    /// back to one interrupt.
    pub open spec fn spec_multiple_message_enable(self) -> MultipleMessageSupport {
        MultipleMessageSupport::spec_from_raw_or_int1(self.spec_multiple_message_enable_raw())
    }

    /// Bit 7: the device uses the 64-bit capability shape.
    pub open spec fn spec_is_64bit(self) -> bool {
        spec_bit16(self.spec_raw(), 7)
    }

    /// Bit 8: the device can mask each vector separately.
    pub open spec fn spec_has_per_vector_masking(self) -> bool {
        spec_bit16(self.spec_raw(), 8)
    }

    /// Wraps a raw control word.
    pub fn new(raw: u16) -> (r: MessageControl)
        ensures
            r.spec_raw() == raw,
    {
        MessageControl(raw)
    }

    /// Whether MSI is enabled.
    pub fn msi_enable(&self) -> (r: bool)
        ensures
            r == self.spec_msi_enable(),
    {
        get_bit16(self.0, 0)
    }

    /// Enables MSI.
    pub fn set_msi_enable(&mut self)
        ensures
            final(self).spec_raw() == spec_with_bit16(old(self).spec_raw(), 0, true),
            final(self).spec_msi_enable(),
    {
        proof {
            crate::bits::lemma_with_bit16(self.0, 0, true, 0);
        }
        self.0 = with_bit16(self.0, 0, true);
    }

    /// Disables MSI.
    pub fn clear_msi_enable(&mut self)
        ensures
            final(self).spec_raw() == spec_with_bit16(old(self).spec_raw(), 0, false),
            !final(self).spec_msi_enable(),
    {
        proof {
            crate::bits::lemma_with_bit16(self.0, 0, false, 0);
        }
        self.0 = with_bit16(self.0, 0, false);
    }

    /// The advertised message count.  The field values 6 and 7 are
    /// reserved, so a control word read from a conforming device never
    /// carries them; they are excluded here.
    pub fn multiple_message_capable(&self) -> (r: MultipleMessageSupport)
        requires
            self.spec_multiple_message_capable_raw() <= 5,
        ensures
            r == MultipleMessageSupport::spec_from_raw_or_int1(
                self.spec_multiple_message_capable_raw(),
            ),
    {
        let raw: u8 = ((self.0 >> 1) & 7) as u8;
        match MultipleMessageSupport::from_raw(raw) {
            Some(v) => v,
            None => MultipleMessageSupport::Int1,
        }
    }

    /// The enabled message count, with the reserved field values falling
    /// back to one interrupt.
    pub fn multiple_message_enable(&self) -> (r: MultipleMessageSupport)
        ensures
            r == self.spec_multiple_message_enable(),
    {
        let raw: u8 = ((self.0 >> 4) & 7) as u8;
        match MultipleMessageSupport::from_raw(raw) {
            Some(v) => v,
            None => MultipleMessageSupport::Int1,
        }
    }

    /// Sets how many interrupts the device will use.  A request above
    /// the advertised capability is clamped to the capability rather
    /// than refused.
    pub fn set_multiple_message_enable(&mut self, value: MultipleMessageSupport)
        requires
            old(self).spec_multiple_message_capable_raw() <= 5,
        ensures
            final(self).spec_raw() == (old(self).spec_raw() & 0xff8f) | (
            (value.spec_min(
                MultipleMessageSupport::spec_from_raw_or_int1(
                    old(self).spec_multiple_message_capable_raw(),
                ),
            ).spec_raw() as u16) << 4),
            final(self).spec_multiple_message_enable() == value.spec_min(
                MultipleMessageSupport::spec_from_raw_or_int1(
                    old(self).spec_multiple_message_capable_raw(),
                ),
            ),
    {
        let capable: MultipleMessageSupport = self.multiple_message_capable();
        let vraw: u8 = value.raw();
        let craw: u8 = capable.raw();
        let capped: u8 = if vraw <= craw {
            vraw
        } else {
            craw
        };
        let new_raw: u16 = (self.0 & 0xff8f) | ((capped as u16) << 4);
        proof {
            let x = self.0;
            let c = capped;
            assert(c < 8 ==> (((x & 0xff8f) | ((c as u16) << 4)) >> 4) & 7 == c as u16)
                by (bit_vector);
        }
        self.0 = new_raw;
    }

    /// Whether the device uses the 64-bit capability shape.
    pub fn is_64bit(&self) -> (r: bool)
        ensures
            r == self.spec_is_64bit(),
    {
        get_bit16(self.0, 7)
    }

    /// Whether the device can mask each vector separately.
    pub fn has_per_vector_masking(&self) -> (r: bool)
        ensures
            r == self.spec_has_per_vector_masking(),
    {
        get_bit16(self.0, 8)
    }
}

impl RegisterValue for CapabilityHeader<MessageControl> {
    open spec fn spec_size() -> nat {
        4
    }

    closed spec fn as_bytes(self) -> Seq<u8> {
        seq![self.id, self.next] + spec_u16_to_le_bytes(self.extension.0)
    }

    closed spec fn of_bytes(b: Seq<u8>) -> CapabilityHeader<MessageControl> {
        CapabilityHeader {
            id: b[0],
            next: b[1],
            extension: MessageControl(spec_u16_from_le_bytes(b.subrange(2, 4))),
        }
    }

    proof fn lemma_round_trip(v: CapabilityHeader<MessageControl>) {
        lemma_auto_spec_u16_to_from_le_bytes();
        let e = spec_u16_to_le_bytes(v.extension.0);
        assert(e.len() == 2);
        assert((seq![v.id, v.next] + e).subrange(2, 4) =~= e);
    }

    fn byte_size() -> (n: u16) {
        4
    }

    fn from_bytes(b: &[u8]) -> (r: CapabilityHeader<MessageControl>) {
        let extension: u16 = vstd::bytes::u16_from_le_bytes(vstd::slice::slice_subrange(b, 2, 4));
        let r = CapabilityHeader { id: b[0], next: b[1], extension: MessageControl(extension) };
        proof {
            lemma_auto_spec_u16_to_from_le_bytes();
            assert(spec_u16_to_le_bytes(extension) == b@.subrange(2, 4));
            assert(r.as_bytes() =~= b@);
        }
        r
    }

    fn to_bytes(&self) -> (b: Vec<u8>) {
        let mut v: Vec<u8> = Vec::new();
        v.push(self.id);
        v.push(self.next);
        let mut e: Vec<u8> = u16_to_le_bytes(self.extension.0);
        v.append(&mut e);
        proof {
            assert(v@ =~= self.as_bytes());
        }
        v
    }
}

/// The MSI message data word.  Only the low 16 bits are defined; the
/// upper 16 are reserved-zero.
#[derive(Clone, Copy, Debug, PartialEq, Eq, Structural)]
pub struct MessageData(u32);

impl MessageData {
    /// The raw 32-bit data word.
    pub closed spec fn spec_raw(self) -> u32 {
        self.0
    }

    /// Builds a data word from an interrupt vector and a trigger mode
    /// (bits 14–15).
    pub fn new(vector: u8, trigger_mode: TriggerMode) -> (r: MessageData)
        ensures
            r.spec_raw() == (vector as u32) | ((trigger_mode.spec_raw() as u32) << 14),
    {
        MessageData((vector as u32) | ((trigger_mode.raw() as u32) << 14))
    }
}

impl RegisterValue for MessageData {
    open spec fn spec_size() -> nat {
        4
    }

    closed spec fn as_bytes(self) -> Seq<u8> {
        spec_u32_to_le_bytes(self.0)
    }

    closed spec fn of_bytes(b: Seq<u8>) -> MessageData {
        MessageData(spec_u32_from_le_bytes(b))
    }

    proof fn lemma_round_trip(v: MessageData) {
        lemma_auto_spec_u32_to_from_le_bytes();
        assert(spec_u32_to_le_bytes(v.0).len() == 4);
    }

    fn byte_size() -> (n: u16) {
        4
    }

    fn from_bytes(b: &[u8]) -> (r: MessageData) {
        proof {
            lemma_auto_spec_u32_to_from_le_bytes();
        }
        MessageData(vstd::bytes::u32_from_le_bytes(b))
    }

    fn to_bytes(&self) -> (b: Vec<u8>) {
        u32_to_le_bytes(self.0)
    }
}

/// An MSI capability in its canonical 64-bit shape: when the underlying
/// hardware is the 32-bit variant, the upper address word and the mask
/// and pending words are zero-filled on read and left untouched on
/// write.
#[derive(Clone, Copy, Debug)]
pub struct MsiCapability {
    /// The capability header, with the control word decoded.
    pub header: CapabilityHeader<MessageControl>,
    /// The low and high halves of the message address.
    pub addr: [u32; 2],
    /// The message data word.
    pub data: MessageData,
    /// Per-vector mask bits; meaningful only on the 64-bit variant with
    /// per-vector masking, and never written back.
    pub mask_bits: u32,
    /// Per-vector pending bits; meaningful only on the 64-bit variant,
    /// and never written back.
    pub pending_bits: u32,
}

/// The canonical MSI capability value, as [`MsiCapability::read_info`]
/// and [`MsiCapability::write_info`] use it.
pub type MsiCapabilityInfo = MsiCapability;

/// How a capability header classifies for MSI: not MSI at all, the
/// 32-bit shape, or the 64-bit shape, from the id byte and the control
/// word's address-width bit.
pub open spec fn spec_msi_cap_type<M: DwordAccessMethod>(
    m: M,
    region: PciAddress,
    off: int,
) -> usize {
    let hdr = spec_capability_header_at(m, region, off);
    if hdr.id != 0x05 {
        0
    } else if !spec_bit16(hdr.extension, 7) {
        1
    } else {
        2
    }
}

/// The value [`MsiCapability::read_info`] returns for the capability at
/// byte offset `off`: each field the device's variant has is the dword
/// read there, and the fields it lacks are zero.
pub open spec fn spec_msi_info_matches<M: DwordAccessMethod>(
    m: M,
    region: PciAddress,
    off: int,
    info: MsiCapability,
) -> bool {
    let hdr = spec_capability_header_at(m, region, off);
    let is64 = spec_bit16(hdr.extension, 7);
    &&& info.header.id == hdr.id
    &&& info.header.next == hdr.next
    &&& info.header.extension.spec_raw() == hdr.extension
    &&& info.addr[0] == spec_dword_value(m, region, off + 4)
    &&& info.addr[1] == if is64 {
        spec_dword_value(m, region, off + 8)
    } else {
        0
    }
    &&& info.data.spec_raw() == if is64 {
        spec_dword_value(m, region, off + 12)
    } else {
        spec_dword_value(m, region, off + 8)
    }
    &&& info.mask_bits == if is64 {
        spec_dword_value(m, region, off + 16)
    } else {
        0
    }
    &&& info.pending_bits == if is64 {
        spec_dword_value(m, region, off + 20)
    } else {
        0
    }
}

/// What [`MsiCapability::write_info`] demands of the device state and
/// the value: the entry is an MSI capability, and the value's header
/// matches the device's id, next pointer and address-width flag, so that
/// a 32-bit-shaped value is never laid out as a 64-bit one or the other
/// way round.
pub open spec fn spec_msi_write_shape_ok<M: DwordAccessMethod>(
    m: M,
    region: PciAddress,
    off: int,
    info: MsiCapability,
) -> bool {
    let hdr = spec_capability_header_at(m, region, off);
    &&& hdr.id == 0x05
    &&& info.header.id == hdr.id
    &&& info.header.next == hdr.next
    &&& spec_bit16(info.header.extension.spec_raw(), 7) == spec_bit16(hdr.extension, 7)
}

/// What [`MsiCapability::write_info`] did: the header, address word(s)
/// and data word of the device's variant hold the value's fields, and
/// everything else — the mask and pending words included — is unchanged.
pub open spec fn spec_msi_written<M: DwordAccessMethod>(
    m0: M,
    m1: M,
    region: PciAddress,
    off: int,
    info: MsiCapability,
) -> bool {
    let is64 = spec_bit16(info.header.extension.spec_raw(), 7);
    &&& bytes_at(m1, region, off, 4) == seq![info.header.id, info.header.next]
        + spec_u16_to_le_bytes(info.header.extension.spec_raw())
    &&& spec_dword_value(m1, region, off + 4) == info.addr[0]
    &&& if is64 {
        &&& spec_dword_value(m1, region, off + 8) == info.addr[1]
        &&& spec_dword_value(m1, region, off + 12) == info.data.spec_raw()
        &&& preserved_outside(m0, m1, region, off, off + 16)
    } else {
        &&& spec_dword_value(m1, region, off + 8) == info.data.spec_raw()
        &&& preserved_outside(m0, m1, region, off, off + 12)
    }
}

impl MsiCapability {
    /// Reinterprets a capability-header accessor as an MSI capability,
    /// if the entry's id byte is the MSI id.  Both hardware shapes are
    /// handled by the canonical codec, so no width check is made here.
    pub fn from_header<M: DwordAccessMethod>(
        cap_header_acc: &DwordAccessor<CapabilityHeader<u16>>,
        m: &M,
    ) -> (r: Option<DwordAccessor<MsiCapability>>)
        requires
            cap_header_acc.spec_access().spec_readable(),
            m.spec_function_exists(cap_header_acc.spec_region()),
            cap_header_acc.spec_offset() % 4 == 0,
            cap_header_acc.spec_offset() + 4 <= 4096,
        ensures
            (r is Some) == (spec_capability_header_at(
                *m,
                cap_header_acc.spec_region(),
                cap_header_acc.spec_offset() as int,
            ).id == 0x05),
            r matches Some(a) ==> {
                &&& a.spec_region() == cap_header_acc.spec_region()
                &&& a.spec_offset() == cap_header_acc.spec_offset()
                &&& a.spec_access() == cap_header_acc.spec_access()
            },
    {
        let header: CapabilityHeader<u16> = cap_header_acc.read(m);
        if header.id == MSI_CAPABILITY_ID {
            Some(cap_header_acc.cast::<MsiCapability>())
        } else {
            None
        }
    }

    /// Classifies the capability entry: 0 when it is not MSI, 1 for the
    /// 32-bit shape, 2 for the 64-bit shape.
    pub fn msi_cap_type<M: DwordAccessMethod>(
        cap_header_acc: &DwordAccessor<CapabilityHeader<u16>>,
        m: &M,
    ) -> (r: usize)
        requires
            cap_header_acc.spec_access().spec_readable(),
            m.spec_function_exists(cap_header_acc.spec_region()),
            cap_header_acc.spec_offset() % 4 == 0,
            cap_header_acc.spec_offset() + 4 <= 4096,
        ensures
            r == spec_msi_cap_type(
                *m,
                cap_header_acc.spec_region(),
                cap_header_acc.spec_offset() as int,
            ),
    {
        let header: CapabilityHeader<u16> = cap_header_acc.read(m);
        if header.id != MSI_CAPABILITY_ID {
            return 0;
        }
        let ctrl: MessageControl = MessageControl::new(header.extension);
        if !ctrl.is_64bit() {
            1
        } else {
            2
        }
    }

    /// Reads the MSI capability behind the given header into the
    /// canonical shape, zero-filling the fields the device's variant
    /// lacks.  The entry must be an MSI capability.
    pub fn read_info<M: DwordAccessMethod>(
        cap_header_acc: &DwordAccessor<CapabilityHeader<u16>>,
        m: &M,
    ) -> (info: MsiCapability)
        requires
            cap_header_acc.spec_access().spec_readable(),
            m.spec_function_exists(cap_header_acc.spec_region()),
            cap_header_acc.spec_offset() % 4 == 0,
            cap_header_acc.spec_offset() + 24 <= 4096,
            spec_capability_header_at(
                *m,
                cap_header_acc.spec_region(),
                cap_header_acc.spec_offset() as int,
            ).id == 0x05,
        ensures
            spec_msi_info_matches(
                *m,
                cap_header_acc.spec_region(),
                cap_header_acc.spec_offset() as int,
                info,
            ),
    {
        let ghost off = cap_header_acc.spec_offset() as int;
        proof {
            lemma_aligned_index(off, 1, 0);
            lemma_aligned_index(off, 2, 0);
            lemma_aligned_index(off, 3, 0);
            lemma_aligned_index(off, 4, 0);
            lemma_aligned_index(off, 5, 0);
        }
        let hdr: CapabilityHeader<u16> = cap_header_acc.read(m);
        let ctrl: MessageControl = MessageControl::new(hdr.extension);
        let header: CapabilityHeader<MessageControl> = CapabilityHeader {
            id: hdr.id,
            next: hdr.next,
            extension: ctrl,
        };
        let addr0: u32 = cap_header_acc.field::<u32>(4).read(m);
        if !ctrl.is_64bit() {
            let data: MessageData = cap_header_acc.field::<MessageData>(8).read(m);
            MsiCapability { header, addr: [addr0, 0], data, mask_bits: 0, pending_bits: 0 }
        } else {
            let addr1: u32 = cap_header_acc.field::<u32>(8).read(m);
            let data: MessageData = cap_header_acc.field::<MessageData>(12).read(m);
            let mask_bits: u32 = cap_header_acc.field::<u32>(16).read(m);
            let pending_bits: u32 = cap_header_acc.field::<u32>(20).read(m);
            MsiCapability { header, addr: [addr0, addr1], data, mask_bits, pending_bits }
        }
    }

    /// Writes the canonical value back into the capability, laying out
    /// only the fields the device's variant has; the mask and pending
    /// words are never written even on the 64-bit variant.  The value's
    /// header must match the device's id, next pointer and address-width
    /// flag, so a value of one shape can never be written over a device
    /// of the other.
    pub fn write_info<M: DwordAccessMethod>(
        cap_header_acc: &DwordAccessor<CapabilityHeader<u16>>,
        m: &mut M,
        info: MsiCapability,
    )
        requires
            cap_header_acc.spec_access().spec_readable(),
            cap_header_acc.spec_access().spec_writable(),
            old(m).spec_function_exists(cap_header_acc.spec_region()),
            cap_header_acc.spec_offset() % 4 == 0,
            cap_header_acc.spec_offset() + 24 <= 4096,
            spec_msi_write_shape_ok(
                *old(m),
                cap_header_acc.spec_region(),
                cap_header_acc.spec_offset() as int,
                info,
            ),
        ensures
            spec_msi_written(
                *old(m),
                *final(m),
                cap_header_acc.spec_region(),
                cap_header_acc.spec_offset() as int,
                info,
            ),
    {
        let ghost off = cap_header_acc.spec_offset() as int;
        let ghost region = cap_header_acc.spec_region();
        let ghost m0 = *m;
        let ghost image = seq![info.header.id, info.header.next] + spec_u16_to_le_bytes(
            info.header.extension.spec_raw(),
        );
        proof {
            lemma_aligned_index(off, 1, 0);
            lemma_aligned_index(off, 2, 0);
            lemma_aligned_index(off, 3, 0);
            lemma_auto_spec_u32_to_from_le_bytes();
        }
        let hdr: CapabilityHeader<u16> = cap_header_acc.read(m);
        let ctrl: MessageControl = MessageControl::new(hdr.extension);
        cap_header_acc.cast::<CapabilityHeader<MessageControl>>().write(m, info.header);
        let ghost m1 = *m;
        cap_header_acc.field::<u32>(4).write(m, info.addr[0]);
        let ghost m2 = *m;
        if !ctrl.is_64bit() {
            cap_header_acc.field::<MessageData>(8).write(m, info.data);
            proof {
                assert(bytes_at(*m, region, off, 4) =~= image);
                assert(bytes_at(*m, region, off + 4, 4) =~= spec_u32_to_le_bytes(info.addr[0]));
                assert(bytes_at(*m, region, off + 8, 4) =~= spec_u32_to_le_bytes(
                    info.data.spec_raw(),
                ));
            }
        } else {
            cap_header_acc.field::<u32>(8).write(m, info.addr[1]);
            let ghost m3 = *m;
            cap_header_acc.field::<MessageData>(12).write(m, info.data);
            proof {
                assert(bytes_at(*m, region, off, 4) =~= image);
                assert(bytes_at(*m, region, off + 4, 4) =~= spec_u32_to_le_bytes(info.addr[0]));
                assert(bytes_at(*m, region, off + 8, 4) =~= spec_u32_to_le_bytes(info.addr[1]));
                assert(bytes_at(*m, region, off + 12, 4) =~= spec_u32_to_le_bytes(
                    info.data.spec_raw(),
                ));
            }
        }
    }

    /// Reads the capability, applies `f`, and writes the result back: a
    /// read-modify-write without atomicity.  `f` must keep the header's
    /// id, next pointer and address-width flag, since the write-back
    /// checks them against the device.
    pub fn update_info<M: DwordAccessMethod, F: FnOnce(MsiCapability) -> MsiCapability>(
        cap_header_acc: &DwordAccessor<CapabilityHeader<u16>>,
        m: &mut M,
        f: F,
    )
        requires
            cap_header_acc.spec_access().spec_readable(),
            cap_header_acc.spec_access().spec_writable(),
            old(m).spec_function_exists(cap_header_acc.spec_region()),
            cap_header_acc.spec_offset() % 4 == 0,
            cap_header_acc.spec_offset() + 24 <= 4096,
            spec_capability_header_at(
                *old(m),
                cap_header_acc.spec_region(),
                cap_header_acc.spec_offset() as int,
            ).id == 0x05,
            forall|t: MsiCapability|
                spec_msi_info_matches(
                    *old(m),
                    cap_header_acc.spec_region(),
                    cap_header_acc.spec_offset() as int,
                    t,
                ) ==> call_requires(f, (t,)),
            forall|t: MsiCapability, u: MsiCapability|
                spec_msi_info_matches(
                    *old(m),
                    cap_header_acc.spec_region(),
                    cap_header_acc.spec_offset() as int,
                    t,
                ) && #[trigger] call_ensures(f, (t,), u) ==> {
                    &&& u.header.id == t.header.id
                    &&& u.header.next == t.header.next
                    &&& spec_bit16(u.header.extension.spec_raw(), 7) == spec_bit16(
                        t.header.extension.spec_raw(),
                        7,
                    )
                },
        ensures
            exists|t: MsiCapability, u: MsiCapability|
                {
                    &&& spec_msi_info_matches(
                        *old(m),
                        cap_header_acc.spec_region(),
                        cap_header_acc.spec_offset() as int,
                        t,
                    )
                    &&& #[trigger] call_ensures(f, (t,), u)
                    &&& spec_msi_written(
                        *old(m),
                        *final(m),
                        cap_header_acc.spec_region(),
                        cap_header_acc.spec_offset() as int,
                        u,
                    )
                },
    {
        let t: MsiCapability = Self::read_info(cap_header_acc, m);
        let u: MsiCapability = f(t);
        Self::write_info(cap_header_acc, m, u);
    }
}

/// Writing a 32-bit-shaped capability and reading the same entry back
/// yields the header, the low address word and the data word exactly,
/// with the upper address word and the mask and pending words
/// zero-filled.
pub proof fn lemma_msi_write_read_round_trip<M: DwordAccessMethod>(
    m0: M,
    m1: M,
    region: PciAddress,
    off: int,
    info: MsiCapability,
    readback: MsiCapability,
)
    requires
        0 <= off,
        off % 4 == 0,
        off + 24 <= 4096,
        !spec_bit16(info.header.extension.spec_raw(), 7),
        spec_msi_written(m0, m1, region, off, info),
        spec_msi_info_matches(m1, region, off, readback),
    ensures
        readback.header == info.header,
        readback.addr[0] == info.addr[0],
        readback.data == info.data,
        readback.addr[1] == 0,
        readback.mask_bits == 0,
        readback.pending_bits == 0,
{
    lemma_auto_spec_u16_to_from_le_bytes();
    let image = seq![info.header.id, info.header.next] + spec_u16_to_le_bytes(
        info.header.extension.spec_raw(),
    );
    let hdr = spec_capability_header_at(m1, region, off);
    assert(spec_u16_to_le_bytes(info.header.extension.spec_raw()).len() == 2);
    assert(image.subrange(2, 4) =~= spec_u16_to_le_bytes(info.header.extension.spec_raw()));
    assert(hdr.id == info.header.id);
    assert(hdr.extension == info.header.extension.spec_raw());
    assert(readback.header.extension == info.header.extension);
}

} // verus!
