use pci_config::dwords::{CmdSts, Command, DevselTiming, HeaderTypeDword, IDs, Intr};
use pci_config::{
    Access, DwordAccessMethod, DwordAccessor, EndpointHeader, HeaderType, MemChannel, PciAddress,
    PciHeader, PciPciBridgeHeader,
};

fn func_addr() -> PciAddress {
    PciAddress::new(0, 0, 0, 0)
}

#[test]
fn address_packs_and_unpacks_fields() {
    let a = PciAddress::new(0xabcd, 0x12, 0x1f, 0x7);
    assert_eq!(a.group(), 0xabcd);
    assert_eq!(a.segment(), 0xabcd);
    assert_eq!(a.bus(), 0x12);
    assert_eq!(a.slot(), 0x1f);
    assert_eq!(a.device(), 0x1f);
    assert_eq!(a.function(), 0x7);

    let b = PciAddress::new(0, 0xff, 0, 0);
    assert_eq!(b.group(), 0);
    assert_eq!(b.bus(), 0xff);
    assert_eq!(b.slot(), 0);
    assert_eq!(b.function(), 0);
    assert_eq!(a, PciAddress::new(0xabcd, 0x12, 0x1f, 0x7));
    assert_ne!(a, b);
}

#[test]
fn command_flags_read_their_bits() {
    let a = func_addr();
    let mut m = MemChannel::new(a, false);
    // Command = 0x0547: io, memory, bus master, parity error response,
    // SERR, interrupt disable.
    m.write_dword(a, 4, 0x0000_0547);
    let acc: DwordAccessor<CmdSts> = DwordAccessor::new(a, 4, Access::ReadWrite);
    let cs = acc.read(&m);
    let cmd = cs.command();
    assert!(cmd.io_enabled());
    assert!(cmd.memory_enabled());
    assert!(cmd.bus_master_enabled());
    assert!(!cmd.special_cycle_enabled());
    assert!(!cmd.memory_write_and_invalidate_enabled());
    assert!(!cmd.vga_palette_snoop());
    assert!(cmd.parity_error_response());
    assert!(!cmd.idsel_step_wait_cycle_control());
    assert!(cmd.serr_enabled());
    assert!(!cmd.fast_back_to_back_enabled());
    assert!(cmd.interrupt_disabled());
}

#[test]
fn command_setters_flip_single_bits() {
    let a = func_addr();
    let mut m = MemChannel::new(a, false);
    m.write_dword(a, 4, 0x0000_0000);
    let acc: DwordAccessor<CmdSts> = DwordAccessor::new(a, 4, Access::ReadWrite);

    let mut cs = acc.read(&m);
    cs.set_command_preserving_status(|mut c: Command| {
        c.set_io_enabled();
        c.set_memory_enabled();
        c.set_bus_master_enabled();
        c
    });
    acc.write(&mut m, cs);
    assert_eq!(m.read_dword(a, 4), 0x0000_0007);

    let mut cs2 = acc.read(&m);
    cs2.set_command(|mut c: Command| {
        c.clear_memory_enabled();
        c.set_interrupt_disabled();
        c.set_serr_enabled();
        c.set_parity_error_response();
        c.clear_parity_error_response();
        c
    });
    acc.write(&mut m, cs2);
    assert_eq!(m.read_dword(a, 4), 0x0000_0505);

    let mut cs3 = acc.read(&m);
    cs3.set_command(|mut c: Command| {
        c.clear_io_enabled();
        c.clear_bus_master_enabled();
        c.clear_serr_enabled();
        c.clear_interrupt_disabled();
        c
    });
    acc.write(&mut m, cs3);
    assert_eq!(m.read_dword(a, 4), 0x0000_0000);
}

#[test]
fn status_flags_read_their_bits() {
    let a = func_addr();
    let mut m = MemChannel::new(a, false);
    // Status = 0xF918: interrupt status, capability list, master data
    // parity error, and the four abort/error flags.
    m.write_dword(a, 4, 0xf918_0000);
    let acc: DwordAccessor<CmdSts> = DwordAccessor::new(a, 4, Access::ReadWrite);
    let sts = acc.read(&m).status();
    assert!(sts.interrupt_status());
    assert!(sts.has_capability_list());
    assert!(!sts.capable_66mhz());
    assert!(!sts.fast_back_to_back_capable());
    assert!(sts.master_data_parity_error());
    assert_eq!(sts.devsel_timing(), Some(DevselTiming::Fast));
    assert!(sts.signalled_target_abort());
    assert!(sts.received_target_abort());
    assert!(sts.received_master_abort());
    assert!(sts.signalled_system_error());
    assert!(sts.parity_error_detected());
}

#[test]
fn devsel_timing_decodes_its_field() {
    let a = func_addr();
    let mut m = MemChannel::new(a, false);
    // Status bits 9-10 = 0b01: medium timing.
    m.write_dword(a, 4, 0x0200_0000);
    let acc: DwordAccessor<CmdSts> = DwordAccessor::new(a, 4, Access::ReadWrite);
    assert_eq!(acc.read(&m).status().devsel_timing(), Some(DevselTiming::Medium));

    m.write_dword(a, 4, 0x0400_0000);
    assert_eq!(acc.read(&m).status().devsel_timing(), Some(DevselTiming::Slow));

    m.write_dword(a, 4, 0x0600_0000);
    assert_eq!(acc.read(&m).status().devsel_timing(), None);

    assert_eq!(DevselTiming::from_raw(0), Some(DevselTiming::Fast));
    assert_eq!(DevselTiming::from_raw(3), None);
}

#[test]
fn header_type_classification_is_total() {
    assert_eq!(HeaderType::from_raw(0x00), HeaderType::Endpoint);
    assert_eq!(HeaderType::from_raw(0x01), HeaderType::PciPciBridge);
    assert_eq!(HeaderType::from_raw(0x02), HeaderType::CardBusBridge);
    assert_eq!(HeaderType::from_raw(0x03), HeaderType::Unknown(0x03));
    assert_eq!(HeaderType::from_raw(0x7f), HeaderType::Unknown(0x7f));
}

#[test]
fn header_type_dword_separates_type_and_multifunction_bit() {
    let a = func_addr();
    let mut m = MemChannel::new(a, false);
    // cacheline 2, latency 1, header type byte 0x81 (bridge plus the
    // multi-function flag), BIST 0.
    m.write_dword(a, 12, 0x0081_0102);
    let acc: DwordAccessor<HeaderTypeDword> = DwordAccessor::new(a, 12, Access::ReadWrite);
    let htd = acc.read(&m);
    assert_eq!(htd.cacheline_size, 2);
    assert_eq!(htd.latency_timer, 1);
    assert_eq!(htd.header_type(), HeaderType::PciPciBridge);
    assert!(htd.has_multiple_functions());
}

#[test]
fn from_header_dispatches_on_the_type_field() {
    let a = func_addr();
    let mut m = MemChannel::new(a, false);
    let hdr: DwordAccessor<PciHeader> = DwordAccessor::new(a, 0, Access::ReadWrite);

    m.write_dword(a, 12, 0x0000_0000);
    assert!(EndpointHeader::from_header(&hdr, &m).is_some());
    assert!(PciPciBridgeHeader::from_header(&hdr, &m).is_none());

    m.write_dword(a, 12, 0x0001_0000);
    assert!(EndpointHeader::from_header(&hdr, &m).is_none());
    assert!(PciPciBridgeHeader::from_header(&hdr, &m).is_some());

    // The multi-function flag does not disturb the dispatch.
    m.write_dword(a, 12, 0x0080_0000);
    assert!(EndpointHeader::from_header(&hdr, &m).is_some());

    // CardBus and unknown types match neither overlay.
    m.write_dword(a, 12, 0x0002_0000);
    assert!(EndpointHeader::from_header(&hdr, &m).is_none());
    assert!(PciPciBridgeHeader::from_header(&hdr, &m).is_none());
}

#[test]
fn endpoint_projections_use_the_fixed_layout() {
    let a = func_addr();
    let mut m = MemChannel::new(a, false);
    m.write_dword(a, 0, 0x8086_1234);
    m.write_dword(a, 0x28, 0x1111_2222);
    m.write_dword(a, 0x2c, 0xaaaa_bbbb);
    m.write_dword(a, 0x30, 0x3333_4444);
    m.write_dword(a, 0x3c, 0x0201_040a);

    let ep: DwordAccessor<EndpointHeader> = DwordAccessor::new(a, 0, Access::ReadWrite);
    let ids: IDs = ep.header().ids().read(&m);
    assert_eq!(ids.vendor_id, 0x1234);
    assert_eq!(ids.id, 0x8086);
    assert_eq!(ep.cardbus_cis_pointer().read(&m), 0x1111_2222);
    let sub: IDs = ep.subsystem_ids().read(&m);
    assert_eq!(sub.vendor_id, 0xbbbb);
    assert_eq!(sub.id, 0xaaaa);
    assert_eq!(ep.expansion_rom_base_address().read(&m), 0x3333_4444);
    let intr: Intr = ep.interrupt().read(&m);
    assert_eq!(intr.interrupt_line, 0x0a);
    assert_eq!(intr.interrupt_pin, 0x04);
    let limits = ep.limits().read(&m);
    assert_eq!(limits.min_grant, 0x01);
    assert_eq!(limits.max_latency, 0x02);
}

#[test]
fn bridge_projections_use_the_fixed_layout() {
    let a = func_addr();
    let mut m = MemChannel::new(a, false);
    m.write_dword(a, 0x18, 0x40_03_02_01);
    m.write_dword(a, 0x1c, 0x0010_f1e0);
    m.write_dword(a, 0x20, 0xfff0_e000);
    m.write_dword(a, 0x24, 0xfff1_e001);
    m.write_dword(a, 0x28, 0x1234_5678);
    m.write_dword(a, 0x2c, 0x9abc_def0);
    m.write_dword(a, 0x30, 0x4321_8765);
    m.write_dword(a, 0x3c, 0x001c_020b);

    let br: DwordAccessor<PciPciBridgeHeader> = DwordAccessor::new(a, 0, Access::ReadWrite);
    let nos = br.bus_nos().read(&m);
    assert_eq!(nos.primary_bus_number, 0x01);
    assert_eq!(nos.secondary_bus_number, 0x02);
    assert_eq!(nos.subordinate_bus_number, 0x03);
    assert_eq!(nos.secondary_latency_timer, 0x40);
    assert_eq!(br.iobase().read(&m), 0xe0);
    assert_eq!(br.iolimit().read(&m), 0xf1);
    assert!(br.secondary_status().read(&m).has_capability_list());
    assert_eq!(br.memory_base().read(&m), 0xe000);
    assert_eq!(br.memory_limit().read(&m), 0xfff0);
    assert_eq!(br.prefetchable_memory_base().read(&m), 0xe001);
    assert_eq!(br.prefetchable_memory_limit().read(&m), 0xfff1);
    assert_eq!(br.prefetchable_base_upper_32().read(&m), 0x1234_5678);
    assert_eq!(br.prefetchable_limit_upper_32().read(&m), 0x9abc_def0);
    assert_eq!(br.iobase_upper_16().read(&m), 0x8765);
    assert_eq!(br.iolimit_upper_16().read(&m), 0x4321);
    assert_eq!(br.interrupt().read(&m).interrupt_line, 0x0b);
    assert_eq!(br.interrupt().read(&m).interrupt_pin, 0x02);
    assert_eq!(br.bridge_control().read(&m).0, 0x001c);
}
