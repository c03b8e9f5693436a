use bios::{MasterBootRecord, PartitionTableEntry};

fn sample_entry_bytes() -> [u8; 16] {
    [
        0x80, 0x01, 0x02, 0x03, 0x83, 0x04, 0x05, 0x06, 0x00, 0x08, 0x00, 0x00, 0x00, 0x00,
        0x10, 0x00,
    ]
}

#[test]
fn entry_from_bytes_reads_fields() {
    let e = PartitionTableEntry::from_bytes(&sample_entry_bytes()).unwrap();
    assert_eq!(e.boot_indicator, PartitionTableEntry::BOOT_INDICATOR_ACTIVE);
    assert_eq!(e.chs_start, [1, 2, 3]);
    assert_eq!(e.partition_type, PartitionTableEntry::TYPE_LINUX_EXT);
    assert_eq!(e.chs_end, [4, 5, 6]);
    assert_eq!(e.lba_start, 2048);
    assert_eq!(e.sector_count, 0x0010_0000);
}

#[test]
fn entry_from_bytes_uses_first_sixteen_bytes() {
    let mut long = sample_entry_bytes().to_vec();
    long.extend_from_slice(&[0xFF; 5]);
    let e = PartitionTableEntry::from_bytes(&long).unwrap();
    assert_eq!(e.to_bytes().unwrap(), sample_entry_bytes());
}

#[test]
fn entry_from_bytes_rejects_short_input() {
    let short = [0u8; 15];
    assert_eq!(
        PartitionTableEntry::from_bytes(&short).unwrap_err(),
        "error : missing data, expected at least 16 bytes"
    );
    assert!(PartitionTableEntry::from_bytes(&[]).is_err());
}

#[test]
fn entry_round_trip_through_bytes() {
    let e = PartitionTableEntry {
        boot_indicator: 0x80,
        chs_start: [0xFE, 0xFF, 0xFF],
        partition_type: PartitionTableEntry::TYPE_EFI_SYSTEM,
        chs_end: [0x12, 0x34, 0x56],
        lba_start: 0xDEAD_BEEF,
        sector_count: 0x0102_0304,
    };
    let b = e.to_bytes().unwrap();
    assert_eq!(&b[8..12], &[0xEF, 0xBE, 0xAD, 0xDE]);
    assert_eq!(&b[12..16], &[0x04, 0x03, 0x02, 0x01]);
    let back = PartitionTableEntry::from_bytes(&b).unwrap();
    assert_eq!(back.to_bytes().unwrap(), b);
    assert_eq!(back.lba_start, e.lba_start);
    assert_eq!(back.sector_count, e.sector_count);
    assert_eq!(back.chs_start, e.chs_start);
    assert_eq!(back.chs_end, e.chs_end);
}

#[test]
fn entry_default_is_all_zero() {
    let e = PartitionTableEntry::default();
    assert_eq!(e.to_bytes().unwrap(), [0u8; 16]);
}

fn sample_sector() -> Vec<u8> {
    let mut s: Vec<u8> = (0..512u32).map(|i| (i * 7 % 251) as u8).collect();
    s[510] = 0x55;
    s[511] = 0xAA;
    s
}

#[test]
fn mbr_from_bytes_reads_layout() {
    let s = sample_sector();
    let m = MasterBootRecord::from_bytes(&s).unwrap();
    assert_eq!(&m.bootstrap[..], &s[0..446]);
    assert_eq!(m.signature, MasterBootRecord::SIGNATURE);
    for k in 0..4 {
        let at = 446 + 16 * k;
        assert_eq!(m.partitions[k].to_bytes().unwrap(), s[at..at + 16]);
    }
}

#[test]
fn mbr_round_trip_through_bytes() {
    let s = sample_sector();
    let m = MasterBootRecord::from_bytes(&s).unwrap();
    let b = m.to_bytes().unwrap();
    assert_eq!(&b[..], &s[..]);
    let again = MasterBootRecord::from_bytes(&b).unwrap();
    assert_eq!(again.to_bytes().unwrap(), b);
}

#[test]
fn mbr_ignores_bytes_past_the_sector() {
    let mut s = sample_sector();
    s.extend_from_slice(&[1, 2, 3]);
    let m = MasterBootRecord::from_bytes(&s).unwrap();
    assert_eq!(&m.to_bytes().unwrap()[..], &s[0..512]);
}

#[test]
fn mbr_from_bytes_rejects_short_input() {
    let s = vec![0u8; 511];
    assert_eq!(
        MasterBootRecord::from_bytes(&s).unwrap_err(),
        "error : missing data, expected at least 512 bytes"
    );
}

#[test]
fn mbr_default_is_all_zero() {
    let m = MasterBootRecord::default();
    assert_eq!(m.to_bytes().unwrap(), [0u8; 512]);
    assert_eq!(m.signature, 0);
}

#[test]
fn mbr_signature_is_little_endian() {
    let mut m = MasterBootRecord::default();
    m.signature = MasterBootRecord::SIGNATURE;
    let b = m.to_bytes().unwrap();
    assert_eq!(b[510], 0x55);
    assert_eq!(b[511], 0xAA);
    assert_eq!(MasterBootRecord::PACKED_SIZE, 512);
    assert_eq!(PartitionTableEntry::PACKED_SIZE, 16);
}
