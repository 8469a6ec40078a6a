//! Registers of dword size or smaller.

use vstd::bytes::*;
use vstd::prelude::*;
use vstd::slice::slice_subrange;

use crate::accessor::RegisterValue;
use crate::bits::{get_bit16, get_bit8, spec_bit16, spec_bit8, spec_with_bit16, with_bit16};
use crate::headers::HeaderType;

verus! {

/// The (vendor id, id) register pair of a device or subsystem.
#[derive(Clone, Copy, Debug, PartialEq, Eq, Structural)]
pub struct IDs {
    /// The vendor id of this device or subsystem.
    pub vendor_id: u16,
    /// The device id, or the subsystem id in a subsystem register.
    pub id: u16,
}

impl RegisterValue for IDs {
    open spec fn spec_size() -> nat {
        4
    }

    open spec fn as_bytes(self) -> Seq<u8> {
        spec_u16_to_le_bytes(self.vendor_id) + spec_u16_to_le_bytes(self.id)
    }

    open spec fn of_bytes(b: Seq<u8>) -> IDs {
        IDs {
            vendor_id: spec_u16_from_le_bytes(b.subrange(0, 2)),
            id: spec_u16_from_le_bytes(b.subrange(2, 4)),
        }
    }

    proof fn lemma_round_trip(v: IDs) {
        lemma_auto_spec_u16_to_from_le_bytes();
        let a = spec_u16_to_le_bytes(v.vendor_id);
        let b = spec_u16_to_le_bytes(v.id);
        assert(a.len() == 2 && b.len() == 2);
        assert((a + b).subrange(0, 2) =~= a);
        assert((a + b).subrange(2, 4) =~= b);
    }

    fn byte_size() -> (n: u16) {
        4
    }

    fn from_bytes(b: &[u8]) -> (r: IDs) {
        let vendor_id: u16 = u16_from_le_bytes(slice_subrange(b, 0, 2));
        let id: u16 = u16_from_le_bytes(slice_subrange(b, 2, 4));
        let r = IDs { vendor_id, id };
        proof {
            lemma_auto_spec_u16_to_from_le_bytes();
            assert(spec_u16_to_le_bytes(vendor_id) == b@.subrange(0, 2));
            assert(spec_u16_to_le_bytes(id) == b@.subrange(2, 4));
            assert(r.as_bytes() =~= b@);
        }
        r
    }

    fn to_bytes(&self) -> (b: Vec<u8>) {
        let mut v: Vec<u8> = u16_to_le_bytes(self.vendor_id);
        let mut w: Vec<u8> = u16_to_le_bytes(self.id);
        v.append(&mut w);
        v
    }
}

/// The Command register: a 16-bit word of device-control flags.
#[derive(Clone, Copy, Debug)]
pub struct Command(u16);

impl Command {
    /// The raw 16-bit register word.
    pub closed spec fn spec_raw(self) -> u16 {
        self.0
    }

    /// Bit 0: I/O space decoding enabled.
    pub open spec fn spec_io_enabled(self) -> bool {
        spec_bit16(self.spec_raw(), 0)
    }

    /// Bit 1: memory space decoding enabled.
    pub open spec fn spec_memory_enabled(self) -> bool {
        spec_bit16(self.spec_raw(), 1)
    }

    /// Bit 2: the function may act as bus master.
    pub open spec fn spec_bus_master_enabled(self) -> bool {
        spec_bit16(self.spec_raw(), 2)
    }

    /// Bit 3: the function may monitor special cycles.
    pub open spec fn spec_special_cycle_enabled(self) -> bool {
        spec_bit16(self.spec_raw(), 3)
    }

    /// Bit 4: Memory Write and Invalidate may be generated.
    pub open spec fn spec_memory_write_and_invalidate_enabled(self) -> bool {
        spec_bit16(self.spec_raw(), 4)
    }

    /// Bit 5: VGA palette snooping enabled.
    pub open spec fn spec_vga_palette_snoop(self) -> bool {
        spec_bit16(self.spec_raw(), 5)
    }

    /// Bit 6: the function responds to parity errors.
    pub open spec fn spec_parity_error_response(self) -> bool {
        spec_bit16(self.spec_raw(), 6)
    }

    /// Bit 7: IDSEL stepping / wait cycle control.
    pub open spec fn spec_idsel_step_wait_cycle_control(self) -> bool {
        spec_bit16(self.spec_raw(), 7)
    }

    /// Bit 8: SERR# driver enabled.
    pub open spec fn spec_serr_enabled(self) -> bool {
        spec_bit16(self.spec_raw(), 8)
    }

    /// Bit 9: fast back-to-back transactions enabled.
    pub open spec fn spec_fast_back_to_back_enabled(self) -> bool {
        spec_bit16(self.spec_raw(), 9)
    }

    /// Bit 10: the INTx# signal is disabled.
    pub open spec fn spec_interrupt_disabled(self) -> bool {
        spec_bit16(self.spec_raw(), 10)
    }

    pub fn io_enabled(&self) -> (r: bool)
        ensures
            r == self.spec_io_enabled(),
    {
        get_bit16(self.0, 0)
    }

    pub fn set_io_enabled(&mut self)
        ensures
            final(self).spec_raw() == spec_with_bit16(old(self).spec_raw(), 0, true),
            final(self).spec_io_enabled(),
    {
        proof {
            crate::bits::lemma_with_bit16(self.0, 0, true, 0);
        }
        self.0 = with_bit16(self.0, 0, true);
    }

    pub fn clear_io_enabled(&mut self)
        ensures
            final(self).spec_raw() == spec_with_bit16(old(self).spec_raw(), 0, false),
            !final(self).spec_io_enabled(),
    {
        proof {
            crate::bits::lemma_with_bit16(self.0, 0, false, 0);
        }
        self.0 = with_bit16(self.0, 0, false);
    }

    pub fn memory_enabled(&self) -> (r: bool)
        ensures
            r == self.spec_memory_enabled(),
    {
        get_bit16(self.0, 1)
    }

    pub fn set_memory_enabled(&mut self)
        ensures
            final(self).spec_raw() == spec_with_bit16(old(self).spec_raw(), 1, true),
            final(self).spec_memory_enabled(),
    {
        proof {
            crate::bits::lemma_with_bit16(self.0, 1, true, 1);
        }
        self.0 = with_bit16(self.0, 1, true);
    }

    pub fn clear_memory_enabled(&mut self)
        ensures
            final(self).spec_raw() == spec_with_bit16(old(self).spec_raw(), 1, false),
            !final(self).spec_memory_enabled(),
    {
        proof {
            crate::bits::lemma_with_bit16(self.0, 1, false, 1);
        }
        self.0 = with_bit16(self.0, 1, false);
    }

    pub fn bus_master_enabled(&self) -> (r: bool)
        ensures
            r == self.spec_bus_master_enabled(),
    {
        get_bit16(self.0, 2)
    }

    pub fn set_bus_master_enabled(&mut self)
        ensures
            final(self).spec_raw() == spec_with_bit16(old(self).spec_raw(), 2, true),
            final(self).spec_bus_master_enabled(),
    {
        proof {
            crate::bits::lemma_with_bit16(self.0, 2, true, 2);
        }
        self.0 = with_bit16(self.0, 2, true);
    }

    pub fn clear_bus_master_enabled(&mut self)
        ensures
            final(self).spec_raw() == spec_with_bit16(old(self).spec_raw(), 2, false),
            !final(self).spec_bus_master_enabled(),
    {
        proof {
            crate::bits::lemma_with_bit16(self.0, 2, false, 2);
        }
        self.0 = with_bit16(self.0, 2, false);
    }

    pub fn special_cycle_enabled(&self) -> (r: bool)
        ensures
            r == self.spec_special_cycle_enabled(),
    {
        get_bit16(self.0, 3)
    }

    pub fn memory_write_and_invalidate_enabled(&self) -> (r: bool)
        ensures
            r == self.spec_memory_write_and_invalidate_enabled(),
    {
        get_bit16(self.0, 4)
    }

    pub fn vga_palette_snoop(&self) -> (r: bool)
        ensures
            r == self.spec_vga_palette_snoop(),
    {
        get_bit16(self.0, 5)
    }

    pub fn parity_error_response(&self) -> (r: bool)
        ensures
            r == self.spec_parity_error_response(),
    {
        get_bit16(self.0, 6)
    }

    pub fn set_parity_error_response(&mut self)
        ensures
            final(self).spec_raw() == spec_with_bit16(old(self).spec_raw(), 6, true),
            final(self).spec_parity_error_response(),
    {
        proof {
            crate::bits::lemma_with_bit16(self.0, 6, true, 6);
        }
        self.0 = with_bit16(self.0, 6, true);
    }

    pub fn clear_parity_error_response(&mut self)
        ensures
            final(self).spec_raw() == spec_with_bit16(old(self).spec_raw(), 6, false),
            !final(self).spec_parity_error_response(),
    {
        proof {
            crate::bits::lemma_with_bit16(self.0, 6, false, 6);
        }
        self.0 = with_bit16(self.0, 6, false);
    }

    pub fn idsel_step_wait_cycle_control(&self) -> (r: bool)
        ensures
            r == self.spec_idsel_step_wait_cycle_control(),
    {
        get_bit16(self.0, 7)
    }

    pub fn serr_enabled(&self) -> (r: bool)
        ensures
            r == self.spec_serr_enabled(),
    {
        get_bit16(self.0, 8)
    }

    pub fn set_serr_enabled(&mut self)
        ensures
            final(self).spec_raw() == spec_with_bit16(old(self).spec_raw(), 8, true),
            final(self).spec_serr_enabled(),
    {
        proof {
            crate::bits::lemma_with_bit16(self.0, 8, true, 8);
        }
        self.0 = with_bit16(self.0, 8, true);
    }

    pub fn clear_serr_enabled(&mut self)
        ensures
            final(self).spec_raw() == spec_with_bit16(old(self).spec_raw(), 8, false),
            !final(self).spec_serr_enabled(),
    {
        proof {
            crate::bits::lemma_with_bit16(self.0, 8, false, 8);
        }
        self.0 = with_bit16(self.0, 8, false);
    }

    pub fn fast_back_to_back_enabled(&self) -> (r: bool)
        ensures
            r == self.spec_fast_back_to_back_enabled(),
    {
        get_bit16(self.0, 9)
    }

    pub fn interrupt_disabled(&self) -> (r: bool)
        ensures
            r == self.spec_interrupt_disabled(),
    {
        get_bit16(self.0, 10)
    }

    pub fn set_interrupt_disabled(&mut self)
        ensures
            final(self).spec_raw() == spec_with_bit16(old(self).spec_raw(), 10, true),
            final(self).spec_interrupt_disabled(),
    {
        proof {
            crate::bits::lemma_with_bit16(self.0, 10, true, 10);
        }
        self.0 = with_bit16(self.0, 10, true);
    }

    pub fn clear_interrupt_disabled(&mut self)
        ensures
            final(self).spec_raw() == spec_with_bit16(old(self).spec_raw(), 10, false),
            !final(self).spec_interrupt_disabled(),
    {
        proof {
            crate::bits::lemma_with_bit16(self.0, 10, false, 10);
        }
        self.0 = with_bit16(self.0, 10, false);
    }
}

/// The slowest time a device will assert DEVSEL# for any bus command
/// except configuration space reads and writes.
#[derive(Clone, Copy, Debug, PartialEq, Eq, Structural)]
pub enum DevselTiming {
    Fast,
    Medium,
    Slow,
}

impl DevselTiming {
    /// The timing a 2-bit field value denotes, if any.
    pub open spec fn spec_from_raw(value: u8) -> Option<DevselTiming> {
        if value == 0 {
            Some(DevselTiming::Fast)
        } else if value == 1 {
            Some(DevselTiming::Medium)
        } else if value == 2 {
            Some(DevselTiming::Slow)
        } else {
            None
        }
    }

    /// The timing a 2-bit field value denotes, if any.
    pub fn from_raw(value: u8) -> (r: Option<DevselTiming>)
        ensures
            r == Self::spec_from_raw(value),
    {
        match value {
            0 => Some(DevselTiming::Fast),
            1 => Some(DevselTiming::Medium),
            2 => Some(DevselTiming::Slow),
            _ => None,
        }
    }
}

/// The Status register: a 16-bit word of mostly write-1-to-clear event
/// flags.
#[derive(Clone, Copy, Debug)]
pub struct Status(u16);

impl Status {
    /// The raw 16-bit register word.
    pub closed spec fn spec_raw(self) -> u16 {
        self.0
    }

    /// A zeroed status word.  Every event flag of the register is
    /// write-1-to-clear, so this is what a command write should carry in
    /// the status half to leave the flags alone.
    pub(crate) fn zero() -> (r: Status)
        ensures
            r.spec_raw() == 0,
    {
        Status(0)
    }

    /// Bit 3: the state of the function's INTx# signal.
    pub open spec fn spec_interrupt_status(self) -> bool {
        spec_bit16(self.spec_raw(), 3)
    }

    /// Bit 4: the function implements the capability linked list.
    pub open spec fn spec_has_capability_list(self) -> bool {
        spec_bit16(self.spec_raw(), 4)
    }

    /// Bit 5: the device can run at 66 MHz.
    pub open spec fn spec_capable_66mhz(self) -> bool {
        spec_bit16(self.spec_raw(), 5)
    }

    /// Bit 7: the device accepts fast back-to-back transactions from
    /// other agents.
    pub open spec fn spec_fast_back_to_back_capable(self) -> bool {
        spec_bit16(self.spec_raw(), 7)
    }

    /// Bit 8: a data parity error was observed while acting as master.
    pub open spec fn spec_master_data_parity_error(self) -> bool {
        spec_bit16(self.spec_raw(), 8)
    }

    /// Bits 9–10: the raw DEVSEL# timing field.
    pub open spec fn spec_devsel_timing_raw(self) -> u8 {
        ((self.spec_raw() >> 9) & 3) as u8
    }

    /// Bit 11: the function terminated a transaction with Target-Abort.
    pub open spec fn spec_signalled_target_abort(self) -> bool {
        spec_bit16(self.spec_raw(), 11)
    }

    /// Bit 12: a transaction of this master was terminated with
    /// Target-Abort.
    pub open spec fn spec_received_target_abort(self) -> bool {
        spec_bit16(self.spec_raw(), 12)
    }

    /// Bit 13: a transaction of this master was terminated with
    /// Master-Abort.
    pub open spec fn spec_received_master_abort(self) -> bool {
        spec_bit16(self.spec_raw(), 13)
    }

    /// Bit 14: the device asserted SERR#.
    pub open spec fn spec_signalled_system_error(self) -> bool {
        spec_bit16(self.spec_raw(), 14)
    }

    /// Bit 15: the device detected a parity error.
    pub open spec fn spec_parity_error_detected(self) -> bool {
        spec_bit16(self.spec_raw(), 15)
    }

    /// Represents the state of the device's INTx# signal: asserted when
    /// this returns `true` and the Command register's Interrupt Disable
    /// bit is clear.  `false` in a secondary status register.
    pub fn interrupt_status(&self) -> (r: bool)
        ensures
            r == self.spec_interrupt_status(),
    {
        get_bit16(self.0, 3)
    }

    /// Whether the function implements the pointer to the capability
    /// linked list.  Always `true` for PCIe; `false` in a secondary
    /// status register.
    pub fn has_capability_list(&self) -> (r: bool)
        ensures
            r == self.spec_has_capability_list(),
    {
        get_bit16(self.0, 4)
    }

    /// Whether the device is capable of running at 66 MHz rather than
    /// 33 MHz.  Always `false` for PCIe.
    pub fn capable_66mhz(&self) -> (r: bool)
        ensures
            r == self.spec_capable_66mhz(),
    {
        get_bit16(self.0, 5)
    }

    /// Whether the device accepts fast back-to-back transactions that
    /// are not from the same agent.  Always `false` for PCIe.
    pub fn fast_back_to_back_capable(&self) -> (r: bool)
        ensures
            r == self.spec_fast_back_to_back_capable(),
    {
        get_bit16(self.0, 7)
    }

    /// Whether the function, acting as bus master with parity error
    /// response enabled, observed a data parity error.
    pub fn master_data_parity_error(&self) -> (r: bool)
        ensures
            r == self.spec_master_data_parity_error(),
    {
        get_bit16(self.0, 8)
    }

    /// The DEVSEL# timing field, or `None` for the reserved encoding.
    /// Always `Fast` for PCIe.
    pub fn devsel_timing(&self) -> (r: Option<DevselTiming>)
        ensures
            r == DevselTiming::spec_from_raw(self.spec_devsel_timing_raw()),
    {
        let bits: u8 = ((self.0 >> 9) & 3) as u8;
        DevselTiming::from_raw(bits)
    }

    /// Whether the function terminated a transaction with Target-Abort.
    pub fn signalled_target_abort(&self) -> (r: bool)
        ensures
            r == self.spec_signalled_target_abort(),
    {
        get_bit16(self.0, 11)
    }

    /// Whether a transaction of this master was terminated with
    /// Target-Abort.
    pub fn received_target_abort(&self) -> (r: bool)
        ensures
            r == self.spec_received_target_abort(),
    {
        get_bit16(self.0, 12)
    }

    /// Whether a transaction of this master (other than a Special Cycle)
    /// was terminated with Master-Abort.
    pub fn received_master_abort(&self) -> (r: bool)
        ensures
            r == self.spec_received_master_abort(),
    {
        get_bit16(self.0, 13)
    }

    /// Whether the device asserted SERR#.
    pub fn signalled_system_error(&self) -> (r: bool)
        ensures
            r == self.spec_signalled_system_error(),
    {
        get_bit16(self.0, 14)
    }

    /// Whether the device detected a parity error, even with parity
    /// error handling disabled.
    pub fn parity_error_detected(&self) -> (r: bool)
        ensures
            r == self.spec_parity_error_detected(),
    {
        get_bit16(self.0, 15)
    }
}

impl RegisterValue for Status {
    open spec fn spec_size() -> nat {
        2
    }

    closed spec fn as_bytes(self) -> Seq<u8> {
        spec_u16_to_le_bytes(self.0)
    }

    closed spec fn of_bytes(b: Seq<u8>) -> Status {
        Status(spec_u16_from_le_bytes(b))
    }

    proof fn lemma_round_trip(v: Status) {
        lemma_auto_spec_u16_to_from_le_bytes();
        assert(spec_u16_to_le_bytes(v.0).len() == 2);
    }

    fn byte_size() -> (n: u16) {
        2
    }

    fn from_bytes(b: &[u8]) -> (r: Status) {
        proof {
            lemma_auto_spec_u16_to_from_le_bytes();
        }
        Status(u16_from_le_bytes(b))
    }

    fn to_bytes(&self) -> (b: Vec<u8>) {
        u16_to_le_bytes(self.0)
    }
}

/// The dword pairing the Command and Status registers: command in the
/// low half, status in the high half.
#[derive(Clone, Copy, Debug)]
pub struct CmdSts {
    cmd: Command,
    sts: Status,
}

impl CmdSts {
    /// The status half.
    pub closed spec fn spec_status(self) -> Status {
        self.sts
    }

    /// The command half.
    pub closed spec fn spec_command(self) -> Command {
        self.cmd
    }

    /// The status half.
    pub fn status(&self) -> (r: Status)
        ensures
            r == self.spec_status(),
    {
        self.sts
    }

    /// The command half.
    pub fn command(&self) -> (r: Command)
        ensures
            r == self.spec_command(),
    {
        self.cmd
    }

    /// Replaces the command half with `f` of it.  Writing the dword back
    /// afterwards carries the status flags as read, which clears every
    /// write-1-to-clear status bit that was set.  Use this when all
    /// status bits are acknowledged and handled; otherwise use
    /// [`Self::set_command_preserving_status`].
    pub fn set_command<F: FnOnce(Command) -> Command>(&mut self, f: F)
        requires
            call_requires(f, (old(self).spec_command(),)),
        ensures
            call_ensures(f, (old(self).spec_command(),), final(self).spec_command()),
            final(self).spec_status() == old(self).spec_status(),
    {
        self.cmd = f(self.cmd);
    }

    /// Replaces the command half with `f` of it and zeroes the status
    /// half, so that writing the dword back leaves every
    /// write-1-to-clear status bit as it was.
    pub fn set_command_preserving_status<F: FnOnce(Command) -> Command>(&mut self, f: F)
        requires
            call_requires(f, (old(self).spec_command(),)),
        ensures
            call_ensures(f, (old(self).spec_command(),), final(self).spec_command()),
            final(self).spec_status().spec_raw() == 0,
    {
        self.cmd = f(self.cmd);
        self.sts = Status::zero();
    }
}

impl RegisterValue for CmdSts {
    open spec fn spec_size() -> nat {
        4
    }

    closed spec fn as_bytes(self) -> Seq<u8> {
        spec_u16_to_le_bytes(self.cmd.0) + spec_u16_to_le_bytes(self.sts.0)
    }

    closed spec fn of_bytes(b: Seq<u8>) -> CmdSts {
        CmdSts {
            cmd: Command(spec_u16_from_le_bytes(b.subrange(0, 2))),
            sts: Status(spec_u16_from_le_bytes(b.subrange(2, 4))),
        }
    }

    proof fn lemma_round_trip(v: CmdSts) {
        lemma_auto_spec_u16_to_from_le_bytes();
        let a = spec_u16_to_le_bytes(v.cmd.0);
        let b = spec_u16_to_le_bytes(v.sts.0);
        assert(a.len() == 2 && b.len() == 2);
        assert((a + b).subrange(0, 2) =~= a);
        assert((a + b).subrange(2, 4) =~= b);
    }

    fn byte_size() -> (n: u16) {
        4
    }

    fn from_bytes(b: &[u8]) -> (r: CmdSts) {
        let cmd_raw: u16 = u16_from_le_bytes(slice_subrange(b, 0, 2));
        let sts_raw: u16 = u16_from_le_bytes(slice_subrange(b, 2, 4));
        let r = CmdSts { cmd: Command(cmd_raw), sts: Status(sts_raw) };
        proof {
            lemma_auto_spec_u16_to_from_le_bytes();
            assert(spec_u16_to_le_bytes(cmd_raw) == b@.subrange(0, 2));
            assert(spec_u16_to_le_bytes(sts_raw) == b@.subrange(2, 4));
            assert(r.as_bytes() =~= b@);
        }
        r
    }

    fn to_bytes(&self) -> (b: Vec<u8>) {
        let mut v: Vec<u8> = u16_to_le_bytes(self.cmd.0);
        let mut w: Vec<u8> = u16_to_le_bytes(self.sts.0);
        v.append(&mut w);
        v
    }
}

/// The Revision ID and Class Code dword.
#[derive(Clone, Copy, Debug, PartialEq, Eq, Structural)]
pub struct RevCC {
    /// Device-specific revision.
    pub revision_id: u8,
    /// The programming interface within the sub-class.
    pub interface: u8,
    /// The sub-class code.
    pub sub_class: u8,
    /// The base class code.
    pub base_class: u8,
}

impl RegisterValue for RevCC {
    open spec fn spec_size() -> nat {
        4
    }

    open spec fn as_bytes(self) -> Seq<u8> {
        seq![self.revision_id, self.interface, self.sub_class, self.base_class]
    }

    open spec fn of_bytes(b: Seq<u8>) -> RevCC {
        RevCC { revision_id: b[0], interface: b[1], sub_class: b[2], base_class: b[3] }
    }

    proof fn lemma_round_trip(v: RevCC) {
    }

    fn byte_size() -> (n: u16) {
        4
    }

    fn from_bytes(b: &[u8]) -> (r: RevCC) {
        let r = RevCC { revision_id: b[0], interface: b[1], sub_class: b[2], base_class: b[3] };
        proof {
            assert(r.as_bytes() =~= b@);
        }
        r
    }

    fn to_bytes(&self) -> (b: Vec<u8>) {
        let mut v: Vec<u8> = Vec::new();
        v.push(self.revision_id);
        v.push(self.interface);
        v.push(self.sub_class);
        v.push(self.base_class);
        proof {
            assert(v@ =~= self.as_bytes());
        }
        v
    }
}

/// The miscellaneous byte registers that share a dword with the Header
/// Type register.
#[derive(Clone, Copy, Debug)]
pub struct HeaderTypeDword {
    /// Cacheline size in dword units.
    pub cacheline_size: u8,
    /// Latency timer in bus-clock units.
    pub latency_timer: u8,
    header_type_raw: u8,
    /// Built-in self test register.
    pub bist: u8,
}

impl HeaderTypeDword {
    /// The raw header-type byte: bits 0–6 the type, bit 7 the
    /// multi-function flag.
    pub closed spec fn spec_header_type_raw(self) -> u8 {
        self.header_type_raw
    }

    /// The header type that the type field (bits 0–6) denotes.
    /// Classification is total: every value maps to a defined outcome,
    /// with unrecognized values reported as the explicit unknown leaf.
    pub open spec fn spec_header_type(self) -> HeaderType {
        HeaderType::spec_from_raw(self.spec_header_type_raw() & 0x7f)
    }

    /// Bit 7 of the header-type byte: the device has multiple functions.
    pub open spec fn spec_has_multiple_functions(self) -> bool {
        spec_bit8(self.spec_header_type_raw(), 7)
    }

    /// Classifies the function by the type field of the header-type
    /// byte.
    pub fn header_type(&self) -> (r: HeaderType)
        ensures
            r == self.spec_header_type(),
    {
        HeaderType::from_raw(self.header_type_raw & 0x7f)
    }

    /// Whether the device has multiple functions.
    pub fn has_multiple_functions(&self) -> (r: bool)
        ensures
            r == self.spec_has_multiple_functions(),
    {
        get_bit8(self.header_type_raw, 7)
    }
}

impl RegisterValue for HeaderTypeDword {
    open spec fn spec_size() -> nat {
        4
    }

    closed spec fn as_bytes(self) -> Seq<u8> {
        seq![self.cacheline_size, self.latency_timer, self.header_type_raw, self.bist]
    }

    closed spec fn of_bytes(b: Seq<u8>) -> HeaderTypeDword {
        HeaderTypeDword {
            cacheline_size: b[0],
            latency_timer: b[1],
            header_type_raw: b[2],
            bist: b[3],
        }
    }

    proof fn lemma_round_trip(v: HeaderTypeDword) {
    }

    fn byte_size() -> (n: u16) {
        4
    }

    fn from_bytes(b: &[u8]) -> (r: HeaderTypeDword) {
        let r = HeaderTypeDword {
            cacheline_size: b[0],
            latency_timer: b[1],
            header_type_raw: b[2],
            bist: b[3],
        };
        proof {
            assert(r.as_bytes() =~= b@);
        }
        r
    }

    fn to_bytes(&self) -> (b: Vec<u8>) {
        let mut v: Vec<u8> = Vec::new();
        v.push(self.cacheline_size);
        v.push(self.latency_timer);
        v.push(self.header_type_raw);
        v.push(self.bist);
        proof {
            assert(v@ =~= self.as_bytes());
        }
        v
    }
}

/// The bus-number dword of a bridge header.
#[derive(Clone, Copy, Debug, PartialEq, Eq, Structural)]
pub struct BusNos {
    /// The bus on the primary (upstream) side of the bridge.
    pub primary_bus_number: u8,
    /// The bus directly on the secondary (downstream) side.
    pub secondary_bus_number: u8,
    /// The highest bus number below the bridge.
    pub subordinate_bus_number: u8,
    /// The latency timer for the secondary interface.
    pub secondary_latency_timer: u8,
}

impl RegisterValue for BusNos {
    open spec fn spec_size() -> nat {
        4
    }

    open spec fn as_bytes(self) -> Seq<u8> {
        seq![
            self.primary_bus_number,
            self.secondary_bus_number,
            self.subordinate_bus_number,
            self.secondary_latency_timer,
        ]
    }

    open spec fn of_bytes(b: Seq<u8>) -> BusNos {
        BusNos {
            primary_bus_number: b[0],
            secondary_bus_number: b[1],
            subordinate_bus_number: b[2],
            secondary_latency_timer: b[3],
        }
    }

    proof fn lemma_round_trip(v: BusNos) {
    }

    fn byte_size() -> (n: u16) {
        4
    }

    fn from_bytes(b: &[u8]) -> (r: BusNos) {
        let r = BusNos {
            primary_bus_number: b[0],
            secondary_bus_number: b[1],
            subordinate_bus_number: b[2],
            secondary_latency_timer: b[3],
        };
        proof {
            assert(r.as_bytes() =~= b@);
        }
        r
    }

    fn to_bytes(&self) -> (b: Vec<u8>) {
        let mut v: Vec<u8> = Vec::new();
        v.push(self.primary_bus_number);
        v.push(self.secondary_bus_number);
        v.push(self.subordinate_bus_number);
        v.push(self.secondary_latency_timer);
        proof {
            assert(v@ =~= self.as_bytes());
        }
        v
    }
}

/// The Interrupt Line and Interrupt Pin registers: line at the lower
/// offset, pin right above it.
#[derive(Clone, Copy, Debug, PartialEq, Eq, Structural)]
pub struct Intr {
    /// The routing of the interrupt to the system controller.
    pub interrupt_line: u8,
    /// Which INTx# pin the function uses (0 = none).
    pub interrupt_pin: u8,
}

impl RegisterValue for Intr {
    open spec fn spec_size() -> nat {
        2
    }

    open spec fn as_bytes(self) -> Seq<u8> {
        seq![self.interrupt_line, self.interrupt_pin]
    }

    open spec fn of_bytes(b: Seq<u8>) -> Intr {
        Intr { interrupt_line: b[0], interrupt_pin: b[1] }
    }

    proof fn lemma_round_trip(v: Intr) {
    }

    fn byte_size() -> (n: u16) {
        2
    }

    fn from_bytes(b: &[u8]) -> (r: Intr) {
        let r = Intr { interrupt_line: b[0], interrupt_pin: b[1] };
        proof {
            assert(r.as_bytes() =~= b@);
        }
        r
    }

    fn to_bytes(&self) -> (b: Vec<u8>) {
        let mut v: Vec<u8> = Vec::new();
        v.push(self.interrupt_line);
        v.push(self.interrupt_pin);
        proof {
            assert(v@ =~= self.as_bytes());
        }
        v
    }
}

/// The Min Grant and Max Latency registers of an endpoint header.
#[derive(Clone, Copy, Debug, PartialEq, Eq, Structural)]
pub struct EPLimits {
    /// The burst period the device needs, in quarter-microseconds.
    pub min_grant: u8,
    /// How often the device needs bus access, in quarter-microseconds.
    pub max_latency: u8,
}

impl RegisterValue for EPLimits {
    open spec fn spec_size() -> nat {
        2
    }

    open spec fn as_bytes(self) -> Seq<u8> {
        seq![self.min_grant, self.max_latency]
    }

    open spec fn of_bytes(b: Seq<u8>) -> EPLimits {
        EPLimits { min_grant: b[0], max_latency: b[1] }
    }

    proof fn lemma_round_trip(v: EPLimits) {
    }

    fn byte_size() -> (n: u16) {
        2
    }

    fn from_bytes(b: &[u8]) -> (r: EPLimits) {
        let r = EPLimits { min_grant: b[0], max_latency: b[1] };
        proof {
            assert(r.as_bytes() =~= b@);
        }
        r
    }

    fn to_bytes(&self) -> (b: Vec<u8>) {
        let mut v: Vec<u8> = Vec::new();
        v.push(self.min_grant);
        v.push(self.max_latency);
        proof {
            assert(v@ =~= self.as_bytes());
        }
        v
    }
}

/// The Bridge Control register of a bridge header.
#[derive(Clone, Copy, Debug, PartialEq, Eq, Structural)]
pub struct BridgeControl(pub u16);

impl RegisterValue for BridgeControl {
    open spec fn spec_size() -> nat {
        2
    }

    open spec fn as_bytes(self) -> Seq<u8> {
        spec_u16_to_le_bytes(self.0)
    }

    open spec fn of_bytes(b: Seq<u8>) -> BridgeControl {
        BridgeControl(spec_u16_from_le_bytes(b))
    }

    proof fn lemma_round_trip(v: BridgeControl) {
        lemma_auto_spec_u16_to_from_le_bytes();
        assert(spec_u16_to_le_bytes(v.0).len() == 2);
    }

    fn byte_size() -> (n: u16) {
        2
    }

    fn from_bytes(b: &[u8]) -> (r: BridgeControl) {
        proof {
            lemma_auto_spec_u16_to_from_le_bytes();
        }
        BridgeControl(u16_from_le_bytes(b))
    }

    fn to_bytes(&self) -> (b: Vec<u8>) {
        u16_to_le_bytes(self.0)
    }
}

} // verus!
