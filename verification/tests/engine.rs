use pci_config::accessor::check_layout;
use pci_config::{
    Access, DwordAccessMethod, DwordAccessor, EndpointHeader, MemChannel, PciAddress, PciHeader,
    RegisterValue,
};

fn func_addr() -> PciAddress {
    PciAddress::new(0, 0, 0, 0)
}

#[test]
fn sub_dword_write_then_read_returns_value() {
    let a = func_addr();
    let mut m = MemChannel::new(a, false);
    m.write_dword(a, 8, 0xddcc_bbaa);

    let acc: DwordAccessor<u8> = DwordAccessor::new(a, 9, Access::ReadWrite);
    assert_eq!(acc.read(&m), 0xbb);
    acc.write(&mut m, 0x5a);
    assert_eq!(acc.read(&m), 0x5a);
}

#[test]
fn sub_dword_write_keeps_other_bytes_of_the_dword() {
    let a = func_addr();
    let mut m = MemChannel::new(a, false);
    m.write_dword(a, 8, 0xddcc_bbaa);

    let acc: DwordAccessor<u8> = DwordAccessor::new(a, 9, Access::ReadWrite);
    acc.write(&mut m, 0x5a);
    assert_eq!(m.read_dword(a, 8), 0xddcc_5aaa);
    assert_eq!(m.read_dword(a, 12), 0);
}

#[test]
fn sub_dword_u16_straddles_high_half() {
    let a = func_addr();
    let mut m = MemChannel::new(a, false);
    m.write_dword(a, 8, 0xddcc_bbaa);

    let acc: DwordAccessor<u16> = DwordAccessor::new(a, 10, Access::ReadWrite);
    assert_eq!(acc.read(&m), 0xddcc);
    acc.write(&mut m, 0x1234);
    assert_eq!(m.read_dword(a, 8), 0x1234_bbaa);
}

#[test]
fn crossing_sub_dword_span_is_refused() {
    // A 2-byte field at offset 3 would span two dwords.
    assert!(!check_layout(3, 2));
    assert!(check_layout(1, 2));
    assert!(check_layout(2, 2));
}

#[test]
fn misaligned_or_oversized_dword_layouts_are_refused() {
    assert!(!check_layout(2, 4));
    assert!(check_layout(4, 4));
    assert!(check_layout(0, 16));
    assert!(!check_layout(0, 6));
    assert!(!check_layout(4094, 4));
    assert!(!check_layout(4095, 2));
    assert!(check_layout(4094, 2));
}

#[test]
fn multi_dword_write_reproduces_bytes_in_ascending_order() {
    let a = func_addr();
    let mut m = MemChannel::new(a, false);
    m.write_dword(a, 0, 0x1234_5678);
    m.write_dword(a, 4, 0x9abc_def0);
    m.write_dword(a, 8, 0x0c03_0201);
    m.write_dword(a, 12, 0x00aa_5500);

    let src: DwordAccessor<PciHeader> = DwordAccessor::new(a, 0, Access::ReadWrite);
    let header = src.read(&m);
    assert_eq!(header.ids.vendor_id, 0x5678);
    assert_eq!(header.ids.id, 0x1234);
    assert_eq!(header.revcc.revision_id, 0x01);
    assert_eq!(header.revcc.interface, 0x02);
    assert_eq!(header.revcc.sub_class, 0x03);
    assert_eq!(header.revcc.base_class, 0x0c);

    // Copy the 16-byte header to another aligned offset and compare the
    // raw dwords: the write lays the bytes down dword by dword.
    let dst: DwordAccessor<PciHeader> = DwordAccessor::new(a, 0x40, Access::ReadWrite);
    dst.write(&mut m, header);
    assert_eq!(m.read_dword(a, 0x40), 0x1234_5678);
    assert_eq!(m.read_dword(a, 0x44), 0x9abc_def0);
    assert_eq!(m.read_dword(a, 0x48), 0x0c03_0201);
    assert_eq!(m.read_dword(a, 0x4c), 0x00aa_5500);
    // Neighbouring dwords are untouched.
    assert_eq!(m.read_dword(a, 0x3c), 0);
    assert_eq!(m.read_dword(a, 0x50), 0);

    let copy = dst.read(&m);
    assert_eq!(copy.ids, header.ids);
    assert_eq!(copy.revcc, header.revcc);
}

#[test]
fn update_applies_function_to_field() {
    let a = func_addr();
    let mut m = MemChannel::new(a, false);
    m.write_dword(a, 0x20, 0x0000_0041);

    let acc: DwordAccessor<u8> = DwordAccessor::new(a, 0x20, Access::ReadWrite);
    acc.update(&mut m, |x: u8| x.wrapping_add(1));
    assert_eq!(acc.read(&m), 0x42);
}

#[test]
fn accessor_rebasing_and_downgrade() {
    let a = func_addr();
    let acc: DwordAccessor<u32> = DwordAccessor::new(a, 0x10, Access::ReadWrite);
    assert_eq!(acc.start_offset(), 0x10);
    assert_eq!(acc.region(), a);
    assert_eq!(acc.access(), Access::ReadWrite);
    assert!(acc.access().readable());
    assert!(acc.access().writable());

    let moved = acc.with_offset(0x14);
    assert_eq!(moved.start_offset(), 0x14);

    let cast: DwordAccessor<u16> = acc.cast::<u16>();
    assert_eq!(cast.start_offset(), 0x10);

    let ro = acc.read_only();
    assert_eq!(ro.access(), Access::ReadOnly);
    assert!(ro.access().readable());
    assert!(!ro.access().writable());
    assert!(!Access::WriteOnly.readable());
    assert!(Access::WriteOnly.writable());
}

#[test]
fn reads_of_absent_functions_return_all_ones() {
    let a = func_addr();
    let other = PciAddress::new(0, 0, 3, 0);
    let mut m = MemChannel::new(a, false);
    assert!(m.function_exists(a));
    assert!(!m.function_exists(other));
    assert_eq!(m.read_dword(other, 0), 0xffff_ffff);
    // A write addressed at an absent function is dropped.
    m.write_dword(other, 0, 0x1234_5678);
    assert_eq!(m.read_dword(other, 0), 0xffff_ffff);
}

#[test]
fn dword_sized_fields_round_trip_through_bar_slots() {
    let a = func_addr();
    let mut m = MemChannel::new(a, false);

    let ep: DwordAccessor<EndpointHeader> = DwordAccessor::new(a, 0, Access::ReadWrite);
    let slot3 = ep.bar_slot(3);
    assert_eq!(slot3.start_offset(), 0x1c);
    slot3.write(&mut m, 0xcafe_f00d);
    assert_eq!(slot3.read(&m), 0xcafe_f00d);
    assert_eq!(m.read_dword(a, 0x1c), 0xcafe_f00d);
    assert_eq!(m.read_dword(a, 0x18), 0);
    assert_eq!(m.read_dword(a, 0x20), 0);
}

#[test]
fn register_values_have_little_endian_byte_images() {
    let v: u32 = <u32 as RegisterValue>::from_bytes(&[0x01, 0x02, 0x03, 0x04]);
    assert_eq!(v, 0x0403_0201);
    assert_eq!(v.to_bytes(), vec![0x01, 0x02, 0x03, 0x04]);
    let w: u16 = <u16 as RegisterValue>::from_bytes(&[0xaa, 0x55]);
    assert_eq!(w, 0x55aa);
    assert_eq!(<u8 as RegisterValue>::byte_size(), 1);
    assert_eq!(<u16 as RegisterValue>::byte_size(), 2);
    assert_eq!(<u32 as RegisterValue>::byte_size(), 4);
}

#[test]
fn multi_function_flag_is_reported() {
    let a = func_addr();
    let m = MemChannel::new(a, true);
    assert!(m.has_multiple_functions(a));
    let m2 = MemChannel::new(a, false);
    assert!(!m2.has_multiple_functions(a));
}
