use pci_config::headers::{bar_size64_from_readback, bar_size_from_readback, decode_bar_probed};
use pci_config::{
    Access, Bar, BarWriteError, DwordAccessMethod, DwordAccessor, EndpointHeader, MemChannel,
    PciAddress, PciPciBridgeHeader,
};

fn func_addr() -> PciAddress {
    PciAddress::new(0, 0, 0, 0)
}

fn endpoint(a: PciAddress) -> DwordAccessor<EndpointHeader> {
    DwordAccessor::new(a, 0, Access::ReadWrite)
}

#[test]
fn io_bar_decodes_port_from_bits_2_to_31() {
    let a = func_addr();
    let mut m = MemChannel::new(a, false);
    m.write_dword(a, 0x10, 0xffff_fff1);

    let bar = EndpointHeader::bar(&endpoint(a), &mut m, 0);
    assert_eq!(bar, Some(Bar::Io { port: 0xffff_fff0 }));
}

#[test]
fn memory32_size_comes_from_lowest_writable_address_bit() {
    // A masked probe readback of 0xFFFFFFE0 means bits 5–31 are
    // writable, so the region is 0x20 bytes.
    assert_eq!(bar_size_from_readback(0xffff_ffe0), Some(0x20));
    let r = decode_bar_probed(0x0000_0000, 0, 0xffff_ffe0, 0, false);
    assert_eq!(r, Some(Bar::Memory32 { address: 0, size: 0x20, prefetchable: false }));
}

#[test]
fn all_zero_masked_readback_reports_absent_bar() {
    assert_eq!(bar_size_from_readback(0), None);
    // Only the low flag bits read back: still absent after masking.
    assert_eq!(bar_size_from_readback(0x0000_000f), None);
    assert_eq!(decode_bar_probed(0x0000_0000, 0, 0x0000_0008, 0, false), None);
    assert_eq!(bar_size64_from_readback(0, 0), None);
}

#[test]
fn size64_uses_high_readback_when_low_is_zero() {
    assert_eq!(bar_size64_from_readback(0xffff_fff0, 0xffff_ffff), Some(0x10));
    assert_eq!(bar_size64_from_readback(0x0000_0000, 0x0000_0001), Some(1u64 << 32));
    assert_eq!(bar_size64_from_readback(0x0000_000c, 0x0000_0100), Some(1u64 << 40));
}

#[test]
fn probe_restores_the_register_exactly() {
    let a = func_addr();
    let mut m = MemChannel::new(a, false);
    m.write_dword(a, 0x10, 0x4000_0008);

    let bar = EndpointHeader::bar(&endpoint(a), &mut m, 0);
    // A memory-backed space accepts every address bit, so the lowest
    // writable bit of the masked readback is bit 4.
    assert_eq!(bar, Some(Bar::Memory32 { address: 0x4000_0000, size: 16, prefetchable: true }));
    assert_eq!(m.read_dword(a, 0x10), 0x4000_0008);
}

#[test]
fn bar64_combines_both_slots() {
    let a = func_addr();
    let mut m = MemChannel::new(a, false);
    m.write_dword(a, 0x10, 0xabcd_0004);
    m.write_dword(a, 0x14, 0x0000_0012);

    let base = EndpointHeader::bar_base_only(&endpoint(a), &m, 0);
    assert_eq!(
        base,
        Some(Bar::Memory64 { address: (0x12u64 << 32) | 0xabcd_0000, size: 0, prefetchable: false })
    );

    let probed = EndpointHeader::bar(&endpoint(a), &mut m, 0);
    assert_eq!(
        probed,
        Some(Bar::Memory64 { address: (0x12u64 << 32) | 0xabcd_0000, size: 16, prefetchable: false })
    );
    // Both slots are restored after the probe.
    assert_eq!(m.read_dword(a, 0x10), 0xabcd_0004);
    assert_eq!(m.read_dword(a, 0x14), 0x0000_0012);
}

#[test]
fn bar64_in_last_slot_is_unrepresentable() {
    let a = func_addr();
    let mut m = MemChannel::new(a, false);
    // Slot 5 is the last endpoint slot; a 64-bit BAR there has no
    // second slot to read.
    m.write_dword(a, 0x10 + 4 * 5, 0x0000_0004);
    assert_eq!(EndpointHeader::bar(&endpoint(a), &mut m, 5), None);

    // Out-of-range slots are absent, not an error.
    assert_eq!(EndpointHeader::bar(&endpoint(a), &mut m, 6), None);
    assert_eq!(EndpointHeader::bar_base_only(&endpoint(a), &m, 200), None);
}

#[test]
fn bar_base_only_reports_size_zero_and_never_writes() {
    let a = func_addr();
    let mut m = MemChannel::new(a, false);
    m.write_dword(a, 0x10, 0x4000_0000);
    let base = EndpointHeader::bar_base_only(&endpoint(a), &m, 0);
    assert_eq!(base, Some(Bar::Memory32 { address: 0x4000_0000, size: 0, prefetchable: false }));
    assert_eq!(m.read_dword(a, 0x10), 0x4000_0000);
}

#[test]
fn write_bar_splits_value_across_a_64bit_pair() {
    let a = func_addr();
    let mut m = MemChannel::new(a, false);
    m.write_dword(a, 0x10, 0x0000_0004);

    let r = EndpointHeader::write_bar(&endpoint(a), &mut m, 0, 0x1234_5678_9abc_def0);
    assert_eq!(r, Ok(()));
    assert_eq!(m.read_dword(a, 0x10), 0x9abc_def0);
    assert_eq!(m.read_dword(a, 0x14), 0x1234_5678);
}

#[test]
fn write_bar_refuses_wide_values_on_narrow_bars() {
    let a = func_addr();
    let mut m = MemChannel::new(a, false);
    m.write_dword(a, 0x10, 0x4000_0000);

    let r = EndpointHeader::write_bar(&endpoint(a), &mut m, 0, 0x1_0000_0000);
    assert_eq!(r, Err(BarWriteError::InvalidValue));
    // The probe restored the register and nothing was written.
    assert_eq!(m.read_dword(a, 0x10), 0x4000_0000);

    let ok = EndpointHeader::write_bar(&endpoint(a), &mut m, 0, 0x9000_0000);
    assert_eq!(ok, Ok(()));
    assert_eq!(m.read_dword(a, 0x10), 0x9000_0000);
}

#[test]
fn write_bar_reports_missing_bars() {
    let a = func_addr();
    let mut m = MemChannel::new(a, false);
    assert_eq!(
        EndpointHeader::write_bar(&endpoint(a), &mut m, 9, 0x1000),
        Err(BarWriteError::NoSuchBar)
    );
}

#[test]
fn bridge_has_two_bar_slots() {
    let a = func_addr();
    let mut m = MemChannel::new(a, false);
    m.write_dword(a, 0x10, 0xffff_fff1);
    m.write_dword(a, 0x14, 0x8000_0000);

    let br: DwordAccessor<PciPciBridgeHeader> = DwordAccessor::new(a, 0, Access::ReadWrite);
    assert_eq!(PciPciBridgeHeader::bar(&br, &mut m, 0), Some(Bar::Io { port: 0xffff_fff0 }));
    assert_eq!(
        PciPciBridgeHeader::bar(&br, &mut m, 1),
        Some(Bar::Memory32 { address: 0x8000_0000, size: 16, prefetchable: false })
    );
    assert_eq!(PciPciBridgeHeader::bar(&br, &mut m, 2), None);
    assert_eq!(
        PciPciBridgeHeader::bar_base_only(&br, &m, 1),
        Some(Bar::Memory32 { address: 0x8000_0000, size: 0, prefetchable: false })
    );
    assert_eq!(
        PciPciBridgeHeader::write_bar(&br, &mut m, 2, 0),
        Err(BarWriteError::NoSuchBar)
    );
}
