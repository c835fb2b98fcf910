//! The FAT32 extended BIOS parameter block: the first sector of the
//! partition, describing the volume's geometry.
use vstd::prelude::*;

use crate::device::BlockDevice;
use crate::io::IoError;
use crate::util::{copy_range, le16_at, le32_at, read_u16_le, read_u32_le};
use crate::vfat::error::Error;

verus! {

/// The extended BIOS parameter block, parsed; fields in on-disk order.
pub struct BiosParameterBlock {
    pub jmp_instruction: Vec<u8>,
    pub oem_identifier: Vec<u8>,
    pub bytes_per_sector: u16,
    pub sectors_per_cluster: u8,
    pub reserved_sectors: u16,
    pub number_of_fat: u8,
    pub max_directory_entries: u16,
    pub total_logical_sectors: u16,
    pub descriptor_type: u8,
    pub sectors_per_fat: u16,
    pub sectors_per_track: u16,
    pub heads_or_sides: u16,
    pub hidden_sectors: u32,
    pub total_logical_sectors_2: u32,
    pub sector_per_fat_32: u32,
    pub flags: u16,
    pub version: u16,
    pub root_dir_cluster_number: u32,
    pub fs_info_sector_number: u16,
    pub backup_boot_sector_number: u16,
    pub formatted_flag: Vec<u8>,
    pub drive_number: u8,
    pub reserved_flag: u8,
    pub signature: u8,
    pub volume_id: u32,
    pub volume_label: Vec<u8>,
    pub identifier_string: Vec<u8>,
    pub bootable_partition_signature: u16,
}

impl BiosParameterBlock {
    /// What a successful parse of sector bytes `s` holds of every field.
    pub open spec fn parsed_from(&self, s: Seq<u8>) -> bool {
        &&& self.jmp_instruction@ == s.subrange(0, 3)
        &&& self.oem_identifier@ == s.subrange(3, 11)
        &&& self.bytes_per_sector == le16_at(s, 11)
        &&& self.sectors_per_cluster == s[13]
        &&& self.reserved_sectors == le16_at(s, 14)
        &&& self.number_of_fat == s[16]
        &&& self.max_directory_entries == le16_at(s, 17)
        &&& self.total_logical_sectors == le16_at(s, 19)
        &&& self.descriptor_type == s[21]
        &&& self.sectors_per_fat == le16_at(s, 22)
        &&& self.sectors_per_track == le16_at(s, 24)
        &&& self.heads_or_sides == le16_at(s, 26)
        &&& self.hidden_sectors == le32_at(s, 28)
        &&& self.total_logical_sectors_2 == le32_at(s, 32)
        &&& self.sector_per_fat_32 == le32_at(s, 36)
        &&& self.flags == le16_at(s, 40)
        &&& self.version == le16_at(s, 42)
        &&& self.root_dir_cluster_number == le32_at(s, 44)
        &&& self.fs_info_sector_number == le16_at(s, 48)
        &&& self.backup_boot_sector_number == le16_at(s, 50)
        &&& self.formatted_flag@ == s.subrange(52, 64)
        &&& self.drive_number == s[64]
        &&& self.reserved_flag == s[65]
        &&& self.signature == s[66]
        &&& self.volume_id == le32_at(s, 67)
        &&& self.volume_label@ == s.subrange(71, 82)
        &&& self.identifier_string@ == s.subrange(82, 90)
        &&& self.bootable_partition_signature == le16_at(s, 510)
    }

    /// Reads and parses the parameter block from sector `sector` of `device`.
    ///
    /// Returns `BadSignature` when the block's magic signature is not 0xAA55,
    /// and `Io` when the device fails or the sector holds fewer than 512
    /// bytes.
    pub fn from<D: BlockDevice>(device: &mut D, sector: u64) -> (r: Result<
        BiosParameterBlock,
        Error,
    >)
        ensures
            final(device).sectors() == old(device).sectors(),
            ({
                let s = old(device).sectors()[sector as int];
                &&& match r {
                    Ok(b) => {
                        &&& (sector as int) < old(device).sectors().len()
                        &&& s.len() >= 512
                        &&& b.parsed_from(s.take(512))
                        &&& le16_at(s.take(512), 510) == 0xAA55
                    },
                    Err(Error::BadSignature) => {
                        &&& (sector as int) < old(device).sectors().len()
                        &&& s.len() >= 512
                        &&& le16_at(s.take(512), 510) != 0xAA55
                    },
                    Err(_) => true,
                }
            }),
    {
        let mut buf: Vec<u8> = vec![0u8; 512];
        let bytes = match device.read_sector(sector, &mut buf) {
            Ok(b) => b,
            Err(e) => {
                return Err(Error::Io(e));
            },
        };
        if bytes != 512 {
            return Err(Error::Io(IoError::UnexpectedEof));
        }
        let ghost s = old(device).sectors()[sector as int].take(512);
        proof {
            assert(buf@ =~= s);
        }

        let bootable_partition_signature = read_u16_le(&buf, 510);
        if bootable_partition_signature != 0xAA55 {
            return Err(Error::BadSignature);
        }

        Ok(
            BiosParameterBlock {
                jmp_instruction: copy_range(&buf, 0, 3),
                oem_identifier: copy_range(&buf, 3, 8),
                bytes_per_sector: read_u16_le(&buf, 11),
                sectors_per_cluster: buf[13],
                reserved_sectors: read_u16_le(&buf, 14),
                number_of_fat: buf[16],
                max_directory_entries: read_u16_le(&buf, 17),
                total_logical_sectors: read_u16_le(&buf, 19),
                descriptor_type: buf[21],
                sectors_per_fat: read_u16_le(&buf, 22),
                sectors_per_track: read_u16_le(&buf, 24),
                heads_or_sides: read_u16_le(&buf, 26),
                hidden_sectors: read_u32_le(&buf, 28),
                total_logical_sectors_2: read_u32_le(&buf, 32),
                sector_per_fat_32: read_u32_le(&buf, 36),
                flags: read_u16_le(&buf, 40),
                version: read_u16_le(&buf, 42),
                root_dir_cluster_number: read_u32_le(&buf, 44),
                fs_info_sector_number: read_u16_le(&buf, 48),
                backup_boot_sector_number: read_u16_le(&buf, 50),
                formatted_flag: copy_range(&buf, 52, 12),
                drive_number: buf[64],
                reserved_flag: buf[65],
                signature: buf[66],
                volume_id: read_u32_le(&buf, 67),
                volume_label: copy_range(&buf, 71, 11),
                identifier_string: copy_range(&buf, 82, 8),
                bootable_partition_signature,
            },
        )
    }
}

} // verus!
