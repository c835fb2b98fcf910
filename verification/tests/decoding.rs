use rustos::allocator::prev_power_of_two;
use rustos::traps::{Fault, Syndrome};
use rustos::util::{read_u16_le, read_u32_le};
use rustos::vfat::{Cluster, FatEntry, Status, Timestamp};
use rustos::vfat::metadata::{Date, Time};

#[test]
fn little_endian_fields() {
    let buf = vec![0x12u8, 0x34, 0x56, 0x78, 0x9A];
    assert_eq!(read_u16_le(&buf, 0), 0x3412);
    assert_eq!(read_u16_le(&buf, 3), 0x9A78);
    assert_eq!(read_u32_le(&buf, 0), 0x78563412);
    assert_eq!(read_u32_le(&buf, 1), 0x9A785634);
}

#[test]
fn cluster_masks_reserved_bits() {
    let c = Cluster::from(0xF000_0005);
    assert_eq!(c.id(), 5);
    assert!(c.is_valid());
    assert_eq!(c.index(), 3);
    assert!(!Cluster::from(0).is_valid());
    assert!(!Cluster::from(1).is_valid());
    assert!(Cluster::from(2).is_valid());
}

#[test]
fn fat_entry_statuses() {
    assert_eq!(FatEntry(0).status(), Status::Free);
    assert_eq!(FatEntry(1).status(), Status::Reserved);
    assert_eq!(FatEntry(7).status(), Status::Data(Cluster::from(7)));
    assert_eq!(FatEntry(0x0FFF_FFEF).status(), Status::Data(Cluster::from(0x0FFF_FFEF)));
    assert_eq!(FatEntry(0x0FFF_FFF0).status(), Status::Reserved);
    assert_eq!(FatEntry(0x0FFF_FFF6).status(), Status::Reserved);
    assert_eq!(FatEntry(0x0FFF_FFF7).status(), Status::Bad);
    assert_eq!(FatEntry(0x0FFF_FFF8).status(), Status::Eoc(0x0FFF_FFF8));
    assert_eq!(FatEntry(0xFFFF_FFFF).status(), Status::Eoc(0x0FFF_FFFF));
    // the reserved top four bits are ignored
    assert_eq!(FatEntry(0xF000_0000).status(), Status::Free);
}

#[test]
fn fat_entry_next_cluster() {
    assert_eq!(FatEntry(9).next_cluster(), Some(Cluster::from(9)));
    assert_eq!(FatEntry(0x0FFF_FFF8).next_cluster(), Some(Cluster::from(0x0FFF_FFF8)));
    assert_eq!(FatEntry(0).next_cluster(), None);
    assert_eq!(FatEntry(0x0FFF_FFF7).next_cluster(), None);
}

#[test]
fn timestamp_unpacks_packed_fields() {
    // 2008-09-23, 15:41:26: year 28 from 1980, month 9, day 23,
    // hour 15, minute 41, second 13*2
    let date = Date((28 << 9) | (9 << 5) | 23);
    let time = Time((15 << 11) | (41 << 5) | 13);
    let ts = Timestamp { date, time };
    assert_eq!(ts.year(), 2008);
    assert_eq!(ts.month(), 9);
    assert_eq!(ts.day(), 23);
    assert_eq!(ts.hour(), 15);
    assert_eq!(ts.minute(), 41);
    assert_eq!(ts.second(), 26);
}

#[test]
fn prev_power_of_two_is_largest_below() {
    assert_eq!(prev_power_of_two(1), 1);
    assert_eq!(prev_power_of_two(2), 2);
    assert_eq!(prev_power_of_two(3), 2);
    assert_eq!(prev_power_of_two(4), 4);
    assert_eq!(prev_power_of_two(1023), 512);
    assert_eq!(prev_power_of_two(1024), 1024);
    assert_eq!(prev_power_of_two(usize::MAX), 1usize << (usize::BITS - 1));
}

#[test]
fn syndrome_decodes_exception_classes() {
    assert_eq!(Syndrome::from(0u32), Syndrome::Unknown);
    assert_eq!(Syndrome::from(1u32 << 26), Syndrome::WfiWfe);
    // supervisor call with its immediate in the low bits
    assert_eq!(Syndrome::from((0b010101u32 << 26) | 1), Syndrome::Svc(1));
    assert_eq!(Syndrome::from((0b111100u32 << 26) | 0xBEEF), Syndrome::Brk(0xBEEF));
    assert_eq!(Syndrome::from(0b100010u32 << 26), Syndrome::PCAlignmentFault);
    assert_eq!(Syndrome::from(0b101111u32 << 26), Syndrome::SError);
    assert_eq!(
        Syndrome::from((0b100100u32 << 26) | 0b100001),
        Syndrome::DataAbort { kind: Fault::Alignment, level: 0b01 }
    );
    assert_eq!(
        Syndrome::from((0b100000u32 << 26) | 0b000110),
        Syndrome::InstructionAbort { kind: Fault::Translation, level: 0b10 }
    );
    assert_eq!(Syndrome::from(0b111111u32 << 26), Syndrome::Other(0b111111));
}

#[test]
fn fault_decodes_status_codes() {
    assert_eq!(Fault::from(0b000000u32), Fault::AddressSize);
    assert_eq!(Fault::from(0b000011u32), Fault::AddressSize);
    assert_eq!(Fault::from(0b000101u32), Fault::Translation);
    assert_eq!(Fault::from(0b001001u32), Fault::AccessFlag);
    assert_eq!(Fault::from(0b001111u32), Fault::Permission);
    assert_eq!(Fault::from(0b100001u32), Fault::Alignment);
    assert_eq!(Fault::from(0b110000u32), Fault::TlbConflict);
    assert_eq!(Fault::from(0b000100u32), Fault::Other(0b000100));
    // only the low six bits take part
    assert_eq!(Fault::from(0xFFFF_FFC0u32), Fault::AddressSize);
}
