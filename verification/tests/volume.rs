use rustos::device::{BlockDevice, MemDevice};
use rustos::fs::FileSystem;
use rustos::io::{IoError, SeekFrom};
use rustos::mbr::{Error as MbrError, MasterBootRecord};
use rustos::vfat::{BiosParameterBlock, Cluster, Entry, Error, VFat};

fn put16(s: &mut [u8], off: usize, v: u16) {
    s[off] = v as u8;
    s[off + 1] = (v >> 8) as u8;
}

fn put32(s: &mut [u8], off: usize, v: u32) {
    s[off] = v as u8;
    s[off + 1] = (v >> 8) as u8;
    s[off + 2] = (v >> 16) as u8;
    s[off + 3] = (v >> 24) as u8;
}

/// A small FAT32 image: one partition starting at sector 1, two reserved
/// sectors, one table sector, root directory in cluster 2, a two-cluster
/// file HELLO.TXT (with a long name "Hello.txt") in clusters 3 and 4, and a
/// subdirectory entry.
fn sample_image() -> Vec<Vec<u8>> {
    let mut sectors = vec![vec![0u8; 512]; 8];

    // sector 0: master boot record
    {
        let s = &mut sectors[0];
        for i in 0..10 {
            s[436 + i] = 0xD0 + i as u8;
        }
        s[446] = 0x00; // bootable flag: valid, not active
        s[446 + 7] = 0x0C; // partition type: FAT32 with logical block addressing
        put32(s, 446 + 8, 1); // partition starts at sector 1
        put32(s, 446 + 12, 7);
        put16(s, 510, 0xAA55);
    }

    // sector 1: extended BIOS parameter block
    {
        let s = &mut sectors[1];
        put16(s, 11, 512); // bytes per sector
        s[13] = 1; // sectors per cluster
        put16(s, 14, 2); // reserved sectors
        s[16] = 1; // one file allocation table
        put32(s, 36, 1); // sectors per table
        put32(s, 44, 2); // root directory cluster
        put16(s, 510, 0xAA55);
    }

    // sector 3: the file allocation table
    // table starts at partition start (1) + reserved (2) = sector 3;
    // data region starts at 3 + 1 table * 1 sector = sector 4
    {
        let s = &mut sectors[3];
        put32(s, 0, 0x0FFF_FFF8); // entry 0: media mark
        put32(s, 4, 0x0FFF_FFFF); // entry 1: end mark
        put32(s, 8, 0x0FFF_FFF8); // cluster 2 (root directory): chain of one
        put32(s, 12, 4); // cluster 3: continues at cluster 4
        put32(s, 16, 0x0FFF_FFF8); // cluster 4: end of the file's chain
    }

    // sector 4 = cluster 2: the root directory
    {
        let s = &mut sectors[4];
        // record 0: long name "Hello.txt", one sequence record (first & last)
        s[0] = 0x41;
        s[11] = 0x0F;
        let units: Vec<u16> = "Hello.txt".encode_utf16().collect();
        for (k, u) in units.iter().enumerate() {
            let off = if k < 5 {
                1 + 2 * k
            } else if k < 11 {
                14 + 2 * (k - 5)
            } else {
                28 + 2 * (k - 11)
            };
            put16(s, off, *u);
        }
        // terminator after the 9 name units (unit 10 of 13)
        put16(s, 14 + 2 * 4, 0x0000);

        // record 1: the regular record for HELLO.TXT
        let b = 32;
        s[b..b + 8].copy_from_slice(b"HELLO   ");
        s[b + 8..b + 11].copy_from_slice(b"TXT");
        s[b + 11] = 0x00; // attributes: plain file
        put16(s, b + 20, 0); // first cluster, high half
        put16(s, b + 26, 3); // first cluster, low half
        put32(s, b + 28, 1000); // size: spans clusters 3 and 4

        // record 2: a subdirectory
        let b = 64;
        s[b..b + 8].copy_from_slice(b"SUBDIR  ");
        s[b + 8..b + 11].copy_from_slice(b"   ");
        s[b + 11] = 0x10; // attributes: directory
        put16(s, b + 26, 5);

        // record 3: end of listing (first byte stays 0)
    }

    // sectors 5 and 6 = clusters 3 and 4: the file's bytes
    for i in 0..512 {
        sectors[5][i] = (i % 251) as u8;
        sectors[6][i] = ((i * 3) % 247) as u8;
    }

    sectors
}

#[test]
fn mbr_parses_partitions_and_signature() {
    let mut dev = MemDevice::new(sample_image());
    let mbr = MasterBootRecord::from(&mut dev).expect("valid record");
    assert_eq!(mbr.signature, 0xAA55);
    assert_eq!(mbr.disk_id, (0..10).map(|i| 0xD0 + i as u8).collect::<Vec<u8>>());
    let p = mbr.get_partition(0);
    assert_eq!(p.boot_indicator, 0);
    assert_eq!(p.partition_type, 0x0C);
    assert_eq!(p.relative_sector, 1);
    assert_eq!(p.sectors, 7);
    assert_eq!(mbr.get_partition(1).partition_type, 0);
}

#[test]
fn mbr_rejects_bad_signature() {
    let mut image = sample_image();
    image[0][510] = 0;
    let mut dev = MemDevice::new(image);
    assert!(matches!(MasterBootRecord::from(&mut dev), Err(MbrError::BadSignature)));
}

#[test]
fn mbr_rejects_unknown_boot_indicator() {
    let mut image = sample_image();
    image[0][446 + 16] = 0x7F; // partition 1's boot indicator
    let mut dev = MemDevice::new(image);
    assert!(matches!(
        MasterBootRecord::from(&mut dev),
        Err(MbrError::UnknownBootIndicator(1))
    ));
}

#[test]
fn mbr_reports_short_device_as_io_error() {
    let mut dev = MemDevice::new(vec![vec![0u8; 100]]);
    assert!(matches!(
        MasterBootRecord::from(&mut dev),
        Err(MbrError::Io(IoError::UnexpectedEof))
    ));
}

#[test]
fn ebpb_parses_geometry() {
    let mut dev = MemDevice::new(sample_image());
    let ebpb = BiosParameterBlock::from(&mut dev, 1).expect("valid block");
    assert_eq!(ebpb.bytes_per_sector, 512);
    assert_eq!(ebpb.sectors_per_cluster, 1);
    assert_eq!(ebpb.reserved_sectors, 2);
    assert_eq!(ebpb.number_of_fat, 1);
    assert_eq!(ebpb.sector_per_fat_32, 1);
    assert_eq!(ebpb.root_dir_cluster_number, 2);
    assert_eq!(ebpb.bootable_partition_signature, 0xAA55);
}

#[test]
fn ebpb_rejects_bad_signature() {
    let mut dev = MemDevice::new(sample_image());
    // sector 0 is the boot record, whose signature is fine but which is not
    // asked for here; sector 2 is all zero
    assert!(matches!(BiosParameterBlock::from(&mut dev, 2), Err(Error::BadSignature)));
}

#[test]
fn volume_mounts_with_computed_layout() {
    let vfat = VFat::from(MemDevice::new(sample_image())).expect("mounts");
    assert_eq!(vfat.bytes_per_sector, 512);
    assert_eq!(vfat.sectors_per_cluster, 1);
    assert_eq!(vfat.fat_start_sector, 3);
    assert_eq!(vfat.data_start_sector, 4);
    assert_eq!(vfat.root_dir_cluster, Cluster::from(2));
}

#[test]
fn volume_rejects_non_fat_partition() {
    let mut image = sample_image();
    image[0][446 + 7] = 0x83;
    assert!(matches!(VFat::from(MemDevice::new(image)), Err(Error::NotFound)));
}

#[test]
fn volume_reports_mbr_failures() {
    let mut image = sample_image();
    image[0][510] = 0;
    assert!(matches!(
        VFat::from(MemDevice::new(image)),
        Err(Error::Mbr(MbrError::BadSignature))
    ));
}

#[test]
fn volume_rejects_unsupported_sector_size() {
    let mut image = sample_image();
    image[1][11] = 0; // bytes per sector: 1024
    image[1][12] = 4;
    assert!(matches!(
        VFat::from(MemDevice::new(image)),
        Err(Error::Io(IoError::InvalidData))
    ));
}

#[test]
fn read_cluster_returns_device_bytes() {
    let mut vfat = VFat::from(MemDevice::new(sample_image())).unwrap();
    let mut buf = vec![0u8; 100];
    let n = vfat.read_cluster(Cluster::from(3), 16, &mut buf).unwrap();
    assert_eq!(n, 100);
    for i in 0..100 {
        assert_eq!(buf[i], ((16 + i) % 251) as u8);
    }
    // a read past the device's sectors fails and the buffer stays put
    let mut buf = vec![9u8; 4];
    assert!(vfat.read_cluster(Cluster::from(20), 0, &mut buf).is_err());
    assert_eq!(buf, vec![9u8; 4]);
}

#[test]
fn read_chain_concatenates_clusters_in_order() {
    let mut vfat = VFat::from(MemDevice::new(sample_image())).unwrap();
    let mut buf = Vec::new();
    let n = vfat.read_chain(Cluster::from(3), &mut buf).unwrap();
    assert_eq!(n, 1024);
    assert_eq!(buf.len(), 1024);
    for i in 0..512 {
        assert_eq!(buf[i], (i % 251) as u8);
        assert_eq!(buf[512 + i], ((i * 3) % 247) as u8);
    }
}

#[test]
fn read_chain_rejects_free_cluster() {
    let mut vfat = VFat::from(MemDevice::new(sample_image())).unwrap();
    let mut buf = Vec::new();
    assert_eq!(vfat.read_chain(Cluster::from(9), &mut buf), Err(IoError::InvalidData));
}

#[test]
fn fat_entry_rejects_reserved_clusters() {
    let mut vfat = VFat::from(MemDevice::new(sample_image())).unwrap();
    assert_eq!(vfat.fat_entry(Cluster::from(0)).unwrap_err(), IoError::InvalidData);
    assert_eq!(vfat.fat_entry(Cluster::from(1)).unwrap_err(), IoError::InvalidData);
    assert_eq!(vfat.fat_entry(Cluster::from(3)).unwrap().0, 4);
}

#[test]
fn directory_lists_long_and_short_names() {
    let mut vfat = VFat::from(MemDevice::new(sample_image())).unwrap();
    let root = rustos::vfat::Dir::new_root(&vfat);
    assert_eq!(root.name, "");
    let mut it = root.entries(&mut vfat).unwrap();

    let first = it.next().expect("the file entry");
    assert_eq!(first.name(), "Hello.txt");
    let file = first.as_file().expect("a file");
    assert_eq!(file.size, 1000);
    assert_eq!(file.start_cluster, Cluster::from(3));
    assert_eq!(first.metadata().start_cluster(), 3);

    let second = it.next().expect("the subdirectory entry");
    assert_eq!(second.name(), "SUBDIR");
    let dir = second.as_dir().expect("a directory");
    assert_eq!(dir.cluster, Cluster::from(5));

    assert!(it.next().is_none());
}

#[test]
fn find_is_case_insensitive() {
    let mut vfat = VFat::from(MemDevice::new(sample_image())).unwrap();
    let root = rustos::vfat::Dir::new_root(&vfat);
    let e = root.find(&mut vfat, "hello.TXT").expect("found despite case");
    assert_eq!(e.name(), "Hello.txt");
    assert!(matches!(e, Entry::File(_)));
    match root.find(&mut vfat, "missing") {
        Err(e) => assert_eq!(e, IoError::NotFound),
        Ok(_) => panic!("an absent name must not be found"),
    }
}

#[test]
fn file_reads_across_cluster_boundary() {
    let mut vfat = VFat::from(MemDevice::new(sample_image())).unwrap();
    let root = rustos::vfat::Dir::new_root(&vfat);
    let mut file = root
        .find(&mut vfat, "hello.txt")
        .unwrap()
        .into_file()
        .expect("a file");
    assert_eq!(file.size(), 1000);

    let mut buf = vec![0u8; 1000];
    let n = file.read(&mut vfat, &mut buf).unwrap();
    assert_eq!(n, 1000);
    for i in 0..512 {
        assert_eq!(buf[i], (i % 251) as u8);
    }
    for i in 512..1000 {
        assert_eq!(buf[i], (((i - 512) * 3) % 247) as u8);
    }
    // the cursor sits at the end: nothing more to read
    let mut rest = vec![0u8; 16];
    assert_eq!(file.read(&mut vfat, &mut rest), Ok(0));
}

#[test]
fn file_seek_repositions_within_bounds() {
    let mut vfat = VFat::from(MemDevice::new(sample_image())).unwrap();
    let root = rustos::vfat::Dir::new_root(&vfat);
    let mut file = root
        .find(&mut vfat, "hello.txt")
        .unwrap()
        .into_file()
        .unwrap();

    assert_eq!(file.seek(&mut vfat, SeekFrom::Start(600)).unwrap(), 600);
    let mut buf = vec![0u8; 4];
    file.read(&mut vfat, &mut buf).unwrap();
    for i in 0..4 {
        assert_eq!(buf[i], (((600 - 512 + i) * 3) % 247) as u8);
    }
    assert_eq!(file.seek(&mut vfat, SeekFrom::Current(-4)).unwrap(), 600);
    assert_eq!(file.seek(&mut vfat, SeekFrom::End(-1)).unwrap(), 999);
    // at or past the end, and before the start, is invalid and moves nothing
    assert_eq!(file.seek(&mut vfat, SeekFrom::Start(1000)), Err(IoError::InvalidInput));
    assert_eq!(file.seek(&mut vfat, SeekFrom::End(0)), Err(IoError::InvalidInput));
    assert_eq!(file.seek(&mut vfat, SeekFrom::Current(-2000)), Err(IoError::InvalidInput));
    assert_eq!(file.offset, 999);
}

#[test]
fn file_system_slot_initializes_once() {
    let mut fs: FileSystem<MemDevice> = FileSystem::uninitialized();
    assert!(!fs.is_initialized());
    let vfat = VFat::from(MemDevice::new(sample_image())).unwrap();
    fs.initialize(vfat);
    assert!(fs.is_initialized());
    let volume = fs.get();
    assert_eq!(volume.fat_start_sector, 3);
    let mut buf = Vec::new();
    assert_eq!(volume.read_chain(Cluster::from(3), &mut buf), Ok(1024));
}

#[test]
fn device_read_sector_copies_prefix() {
    let mut dev = MemDevice::new(vec![vec![7u8; 512], vec![8u8; 512]]);
    let mut buf = vec![0u8; 4];
    assert_eq!(dev.read_sector(1, &mut buf), Ok(4));
    assert_eq!(buf, vec![8u8; 4]);
    let mut big = vec![0u8; 600];
    assert_eq!(dev.read_sector(0, &mut big), Ok(512));
    assert_eq!(&big[..512], &vec![7u8; 512][..]);
    assert_eq!(&big[512..], &vec![0u8; 88][..]);
    assert_eq!(dev.read_sector(2, &mut buf), Err(IoError::InvalidInput));
}
