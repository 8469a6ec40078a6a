use pci_config::{
    Access, CapabilityHeader, DwordAccessMethod, DwordAccessor, EndpointHeader, MemChannel,
    PciAddress, PciPciBridgeHeader,
};

fn func_addr() -> PciAddress {
    PciAddress::new(0, 0, 0, 0)
}

#[test]
fn single_entry_chain_steps_once_then_stops() {
    let a = func_addr();
    let mut m = MemChannel::new(a, false);
    // Status word (high half of dword 4): bit 4 advertises the list.
    m.write_dword(a, 4, 0x0010_0000);
    // Capability pointer at 0x34.
    m.write_dword(a, 0x34, 0x0000_0040);
    // One entry at 0x40: id 5, next 0.
    m.write_dword(a, 0x40, 0x0000_0005);

    let ep: DwordAccessor<EndpointHeader> = DwordAccessor::new(a, 0, Access::ReadWrite);
    let mut it = EndpointHeader::capabilities(&ep, &m);

    let first = it.next(&m);
    assert!(first.is_some());
    let entry = first.unwrap();
    assert_eq!(entry.start_offset(), 0x40);
    let header: CapabilityHeader = entry.read(&m);
    assert_eq!(header.id, 0x05);
    assert_eq!(header.next, 0x00);

    let second = it.next(&m);
    assert!(second.is_none());
}

#[test]
fn two_entry_chain_follows_next_offsets() {
    let a = func_addr();
    let mut m = MemChannel::new(a, false);
    m.write_dword(a, 4, 0x0010_0000);
    m.write_dword(a, 0x34, 0x0000_0050);
    // 0x50: id 5, next 0x60.  0x60: id 0x10, next 0.
    m.write_dword(a, 0x50, 0x0000_6005);
    m.write_dword(a, 0x60, 0x0000_0010);

    let ep: DwordAccessor<EndpointHeader> = DwordAccessor::new(a, 0, Access::ReadWrite);
    let mut it = EndpointHeader::capabilities(&ep, &m);

    let first = it.next(&m).unwrap();
    assert_eq!(first.start_offset(), 0x50);
    assert_eq!(first.read(&m).id, 0x05);
    let second = it.next(&m).unwrap();
    assert_eq!(second.start_offset(), 0x60);
    assert_eq!(second.read(&m).id, 0x10);
    assert!(it.next(&m).is_none());
}

#[test]
fn chain_is_empty_without_the_status_bit() {
    let a = func_addr();
    let mut m = MemChannel::new(a, false);
    // The capability pointer holds garbage, but the status word does
    // not advertise a list, so the traversal starts at the 0 sentinel.
    m.write_dword(a, 0x34, 0x0000_00e0);

    let ep: DwordAccessor<EndpointHeader> = DwordAccessor::new(a, 0, Access::ReadWrite);
    let mut it = EndpointHeader::capabilities(&ep, &m);
    assert!(it.next(&m).is_none());
}

#[test]
fn bridge_chain_uses_the_same_entry_point() {
    let a = func_addr();
    let mut m = MemChannel::new(a, false);
    m.write_dword(a, 4, 0x0010_0000);
    m.write_dword(a, 0x34, 0x0000_0044);
    m.write_dword(a, 0x44, 0x0000_0011);

    let br: DwordAccessor<PciPciBridgeHeader> = DwordAccessor::new(a, 0, Access::ReadWrite);
    let mut it = PciPciBridgeHeader::capabilities(&br, &m);
    let entry = it.next(&m).unwrap();
    assert_eq!(entry.start_offset(), 0x44);
    assert_eq!(entry.read(&m).id, 0x11);
    assert!(it.next(&m).is_none());
}
