use pci_config::{
    Access, CapabilityHeader, DwordAccessMethod, DwordAccessor, MemChannel, MessageControl,
    MessageData, MsiCapability, MultipleMessageSupport, PciAddress, TriggerMode,
};

fn func_addr() -> PciAddress {
    PciAddress::new(0, 0, 0, 0)
}

fn cap_at(a: PciAddress, off: u16) -> DwordAccessor<CapabilityHeader> {
    DwordAccessor::new(a, off, Access::ReadWrite)
}

#[test]
fn msi_32bit_round_trip_matches_and_zero_fills() {
    let a = func_addr();
    let mut m = MemChannel::new(a, false);
    // MSI capability at 0x50, 32-bit shape: id 5, next 0, control 0.
    m.write_dword(a, 0x50, 0x0000_0005);
    let cap = cap_at(a, 0x50);

    let mut info = MsiCapability::read_info(&cap, &m);
    info.addr[0] = 0xfee0_0000;
    info.data = MessageData::new(0x31, TriggerMode::Edge);
    let mut ctrl = info.header.extension;
    ctrl.set_msi_enable();
    info.header.extension = ctrl;

    MsiCapability::write_info(&cap, &mut m, info);
    let back = MsiCapability::read_info(&cap, &m);
    assert_eq!(back.header.id, 0x05);
    assert_eq!(back.header.next, 0x00);
    assert_eq!(back.header.extension, info.header.extension);
    assert_eq!(back.addr[0], 0xfee0_0000);
    assert_eq!(back.data, info.data);
    assert_eq!(back.addr[1], 0);
    assert_eq!(back.mask_bits, 0);
    assert_eq!(back.pending_bits, 0);
}

#[test]
fn msi_width_mismatch_is_detectable() {
    let a = func_addr();
    let mut m = MemChannel::new(a, false);
    // The device's control word reports the 32-bit shape...
    m.write_dword(a, 0x50, 0x0000_0005);
    let cap = cap_at(a, 0x50);
    assert_eq!(MsiCapability::msi_cap_type(&cap, &m), 1);

    // ...so a 64-bit-shaped value fails the identity/width check that
    // write_info demands: the flags disagree.
    let ctrl64 = MessageControl::new(0x0080);
    assert!(ctrl64.is_64bit());
    let device_ctrl = MessageControl::new(cap.read(&m).extension);
    assert!(!device_ctrl.is_64bit());
    assert_ne!(ctrl64.is_64bit(), device_ctrl.is_64bit());
}

#[test]
fn msi_64bit_reads_all_fields_and_never_writes_mask_or_pending() {
    let a = func_addr();
    let mut m = MemChannel::new(a, false);
    // 64-bit shape: control bit 7 set.
    m.write_dword(a, 0x50, 0x0080_0005);
    m.write_dword(a, 0x54, 0x1111_1111);
    m.write_dword(a, 0x58, 0x2222_2222);
    m.write_dword(a, 0x5c, 0x0000_3333);
    m.write_dword(a, 0x60, 0x0000_dead);
    m.write_dword(a, 0x64, 0x0000_beef);
    let cap = cap_at(a, 0x50);
    assert_eq!(MsiCapability::msi_cap_type(&cap, &m), 2);

    let mut info = MsiCapability::read_info(&cap, &m);
    assert_eq!(info.addr[0], 0x1111_1111);
    assert_eq!(info.addr[1], 0x2222_2222);
    assert_eq!(info.mask_bits, 0x0000_dead);
    assert_eq!(info.pending_bits, 0x0000_beef);

    info.addr = [0xfee0_1000, 0x0000_0001];
    info.mask_bits = 0x1234_5678;
    info.pending_bits = 0x9abc_def0;
    MsiCapability::write_info(&cap, &mut m, info);
    assert_eq!(m.read_dword(a, 0x54), 0xfee0_1000);
    assert_eq!(m.read_dword(a, 0x58), 0x0000_0001);
    // The mask and pending words are device-owned and never written.
    assert_eq!(m.read_dword(a, 0x60), 0x0000_dead);
    assert_eq!(m.read_dword(a, 0x64), 0x0000_beef);
}

#[test]
fn update_info_applies_function_in_place() {
    let a = func_addr();
    let mut m = MemChannel::new(a, false);
    m.write_dword(a, 0x50, 0x0000_0005);
    let cap = cap_at(a, 0x50);

    MsiCapability::update_info(&cap, &mut m, |mut info: MsiCapability| {
        info.addr[0] = 0xfee0_2000;
        info
    });
    assert_eq!(m.read_dword(a, 0x54), 0xfee0_2000);
}

#[test]
fn from_header_recognizes_the_msi_id() {
    let a = func_addr();
    let mut m = MemChannel::new(a, false);
    m.write_dword(a, 0x50, 0x0000_0005);
    m.write_dword(a, 0x60, 0x0000_0010);

    assert!(MsiCapability::from_header(&cap_at(a, 0x50), &m).is_some());
    assert!(MsiCapability::from_header(&cap_at(a, 0x60), &m).is_none());
    let acc = MsiCapability::from_header(&cap_at(a, 0x50), &m).unwrap();
    assert_eq!(acc.start_offset(), 0x50);
}

#[test]
fn message_data_places_vector_and_trigger_mode() {
    let a = func_addr();
    let mut m = MemChannel::new(a, false);
    m.write_dword(a, 0x50, 0x0000_0005);
    let cap = cap_at(a, 0x50);

    let mut info = MsiCapability::read_info(&cap, &m);
    info.data = MessageData::new(0x31, TriggerMode::LevelAssert);
    MsiCapability::write_info(&cap, &mut m, info);
    // vector 0x31 in the low byte, trigger mode 0b11 in bits 14-15.
    assert_eq!(m.read_dword(a, 0x58), 0x0000_c031);

    info.data = MessageData::new(0x20, TriggerMode::LevelDeassert);
    MsiCapability::write_info(&cap, &mut m, info);
    assert_eq!(m.read_dword(a, 0x58), 0x0000_8020);

    info.data = MessageData::new(0xff, TriggerMode::Edge);
    MsiCapability::write_info(&cap, &mut m, info);
    assert_eq!(m.read_dword(a, 0x58), 0x0000_00ff);
}

#[test]
fn multiple_message_enable_is_clamped_to_capability() {
    // Capable count Int4: bits 1-3 hold 2.
    let mut ctrl = MessageControl::new(0x0004);
    assert_eq!(ctrl.multiple_message_capable(), MultipleMessageSupport::Int4);
    ctrl.set_multiple_message_enable(MultipleMessageSupport::Int32);
    assert_eq!(ctrl.multiple_message_enable(), MultipleMessageSupport::Int4);

    // A request below the capability is taken as it is.
    let mut ctrl2 = MessageControl::new(0x0004);
    ctrl2.set_multiple_message_enable(MultipleMessageSupport::Int2);
    assert_eq!(ctrl2.multiple_message_enable(), MultipleMessageSupport::Int2);
}

#[test]
fn message_control_flags_read_the_right_bits() {
    let ctrl = MessageControl::new(0x0181);
    assert!(ctrl.msi_enable());
    assert!(ctrl.is_64bit());
    assert!(ctrl.has_per_vector_masking());
    assert_eq!(ctrl.multiple_message_capable(), MultipleMessageSupport::Int1);

    let mut off = MessageControl::new(0x0001);
    assert!(off.msi_enable());
    assert!(!off.is_64bit());
    assert!(!off.has_per_vector_masking());
    off.clear_msi_enable();
    assert!(!off.msi_enable());
    off.set_msi_enable();
    assert!(off.msi_enable());
}

#[test]
fn multiple_message_support_raw_values_round_trip() {
    let all = [
        MultipleMessageSupport::Int1,
        MultipleMessageSupport::Int2,
        MultipleMessageSupport::Int4,
        MultipleMessageSupport::Int8,
        MultipleMessageSupport::Int16,
        MultipleMessageSupport::Int32,
    ];
    for (i, v) in all.iter().enumerate() {
        assert_eq!(v.raw() as usize, i);
        assert_eq!(MultipleMessageSupport::from_raw(v.raw()), Some(*v));
    }
    assert_eq!(MultipleMessageSupport::from_raw(6), None);
    assert_eq!(MultipleMessageSupport::from_raw(7), None);
}
