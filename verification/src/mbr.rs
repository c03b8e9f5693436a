use vstd::prelude::*;
use vstd::slice::slice_subrange;
use crate::bytes::{
    le_u16_bytes, le_u32_bytes, lemma_le_u16_injective, lemma_le_u32_injective, u16_from_le,
    u16_to_le, u32_from_le, u32_to_le,
};

verus! {

/// One of the four 16-byte entries of the partition table of a master boot record.
#[derive(Clone, Copy, Debug)]
pub struct PartitionTableEntry {
    pub boot_indicator: u8,
    pub chs_start: [u8; 3],
    pub partition_type: u8,
    pub chs_end: [u8; 3],
    pub lba_start: u32,
    pub sector_count: u32,
}

impl PartitionTableEntry {
    pub const PACKED_SIZE: usize = 16;

    pub const BOOT_INDICATOR_INACTIVE: u8 = 0x00;
    pub const BOOT_INDICATOR_ACTIVE: u8 = 0x80;

    pub const TYPE_EMPTY: u8 = 0x00;
    pub const TYPE_FAT12: u8 = 0x01;
    pub const TYPE_FAT16_SMALL: u8 = 0x04;
    pub const TYPE_FAT16: u8 = 0x06;
    pub const TYPE_NTFS: u8 = 0x07;
    pub const TYPE_FAT32_CHS: u8 = 0x0B;
    pub const TYPE_FAT32_LBA: u8 = 0x0C;
    pub const TYPE_FAT16_LBA: u8 = 0x0E;
    pub const TYPE_LINUX_SWAP: u8 = 0x82;
    pub const TYPE_LINUX_EXT: u8 = 0x83;
    pub const TYPE_LINUX_LVM: u8 = 0x8E;
    pub const TYPE_PROTECTIVE_GPT: u8 = 0xEE;
    pub const TYPE_EFI_SYSTEM: u8 = 0xEF;
    pub const TYPE_LINUX_RAID: u8 = 0xFD;

    /// The packed on-disk layout of the entry: indicator, CHS start, type,
    /// CHS end, then the first LBA and the sector count, little endian.
    pub open spec fn encoding(self) -> Seq<u8> {
        seq![self.boot_indicator] + self.chs_start@ + seq![self.partition_type] + self.chs_end@
            + le_u32_bytes(self.lba_start) + le_u32_bytes(self.sector_count)
    }

    /// Reads an entry from the first 16 bytes of `bytes`.
    pub fn from_bytes(bytes: &[u8]) -> (r: Result<Self, &'static str>)
        ensures
            r is Err <==> bytes@.len() < 16,
            r matches Err(msg) ==> msg@ == "error : missing data, expected at least 16 bytes"@,
            r matches Ok(e) ==> e.encoding() == bytes@.subrange(0, 16),
    {
        if bytes.len() < 16 {
            return Err("error : missing data, expected at least 16 bytes");
        }
        let chs_start = [bytes[1], bytes[2], bytes[3]];
        let chs_end = [bytes[5], bytes[6], bytes[7]];
        let e = PartitionTableEntry {
            boot_indicator: bytes[0],
            chs_start,
            partition_type: bytes[4],
            chs_end,
            lba_start: u32_from_le(bytes[8], bytes[9], bytes[10], bytes[11]),
            sector_count: u32_from_le(bytes[12], bytes[13], bytes[14], bytes[15]),
        };
        assert(e.encoding() =~= bytes@.subrange(0, 16));
        Ok(e)
    }

    /// Writes the entry in its packed 16-byte layout.
    pub fn to_bytes(&self) -> (r: Result<[u8; 16], &'static str>)
        ensures
            r matches Ok(b) && b@ == self.encoding(),
    {
        let lba = u32_to_le(self.lba_start);
        let count = u32_to_le(self.sector_count);
        let b: [u8; 16] = [
            self.boot_indicator,
            self.chs_start[0],
            self.chs_start[1],
            self.chs_start[2],
            self.partition_type,
            self.chs_end[0],
            self.chs_end[1],
            self.chs_end[2],
            lba[0],
            lba[1],
            lba[2],
            lba[3],
            count[0],
            count[1],
            count[2],
            count[3],
        ];
        assert(b@ =~= self.encoding());
        Ok(b)
    }
}

impl Default for PartitionTableEntry {
    /// An empty, inactive entry: every byte zero.
    fn default() -> (r: Self)
        ensures
            r.encoding() == Seq::new(16, |i: int| 0u8),
    {
        let r = PartitionTableEntry {
            boot_indicator: 0,
            chs_start: [0, 0, 0],
            partition_type: 0,
            chs_end: [0, 0, 0],
            lba_start: 0,
            sector_count: 0,
        };
        assert(r.encoding() =~= Seq::new(16, |i: int| 0u8));
        r
    }
}

/// Every field of an entry sits at a fixed place whatever its value: byte 0
/// the boot indicator, bytes 1-3 the CHS start, byte 4 the type, bytes 5-7
/// the CHS end, bytes 8-11 the first LBA and bytes 12-15 the sector count,
/// each little endian.
pub proof fn lemma_entry_field_positions(e: PartitionTableEntry)
    ensures
        e.encoding().len() == 16,
        e.encoding()[0] == e.boot_indicator,
        e.encoding().subrange(1, 4) == e.chs_start@,
        e.encoding()[4] == e.partition_type,
        e.encoding().subrange(5, 8) == e.chs_end@,
        e.encoding().subrange(8, 12) == le_u32_bytes(e.lba_start),
        e.encoding().subrange(12, 16) == le_u32_bytes(e.sector_count),
{
    let s = e.encoding();
    assert(s.subrange(1, 4) =~= e.chs_start@);
    assert(s.subrange(5, 8) =~= e.chs_end@);
    assert(s.subrange(8, 12) =~= le_u32_bytes(e.lba_start));
    assert(s.subrange(12, 16) =~= le_u32_bytes(e.sector_count));
}

/// The packed layout of an entry is always 16 bytes long.
pub proof fn lemma_entry_encoding_len(e: PartitionTableEntry)
    ensures
        e.encoding().len() == PartitionTableEntry::PACKED_SIZE,
{
}

/// An entry is determined by its packed bytes, so reading back what
/// `to_bytes` wrote gives the same entry.
pub proof fn lemma_entry_encoding_injective(a: PartitionTableEntry, b: PartitionTableEntry)
    requires
        a.encoding() == b.encoding(),
    ensures
        a == b,
{
    let ea = a.encoding();
    let eb = b.encoding();
    assert(ea.subrange(1, 4) =~= a.chs_start@);
    assert(eb.subrange(1, 4) =~= b.chs_start@);
    assert(ea.subrange(5, 8) =~= a.chs_end@);
    assert(eb.subrange(5, 8) =~= b.chs_end@);
    assert(ea.subrange(8, 12) =~= le_u32_bytes(a.lba_start));
    assert(eb.subrange(8, 12) =~= le_u32_bytes(b.lba_start));
    assert(ea.subrange(12, 16) =~= le_u32_bytes(a.sector_count));
    assert(eb.subrange(12, 16) =~= le_u32_bytes(b.sector_count));
    lemma_le_u32_injective(a.lba_start, b.lba_start);
    lemma_le_u32_injective(a.sector_count, b.sector_count);
    assert(ea[0] == a.boot_indicator && eb[0] == b.boot_indicator);
    assert(ea[4] == a.partition_type && eb[4] == b.partition_type);
    assert(a.chs_start =~= b.chs_start);
    assert(a.chs_end =~= b.chs_end);
}

/// The first sector of a partitioned disk: boot code, partition table, signature.
#[derive(Clone, Copy, Debug)]
pub struct MasterBootRecord {
    pub bootstrap: [u8; 446],
    pub partitions: [PartitionTableEntry; 4],
    pub signature: u16,
}

impl MasterBootRecord {
    pub const PACKED_SIZE: usize = 512;

    pub const SIGNATURE: u16 = 0xAA55;

    /// The 512-byte sector layout: 446 bytes of boot code, the four packed
    /// partition entries, then the signature, little endian.
    pub open spec fn encoding(self) -> Seq<u8> {
        self.bootstrap@ + self.partitions[0].encoding() + self.partitions[1].encoding()
            + self.partitions[2].encoding() + self.partitions[3].encoding() + le_u16_bytes(
            self.signature,
        )
    }

    /// Reads a boot record from the first 512 bytes of `bytes`.
    pub fn from_bytes(bytes: &[u8]) -> (r: Result<Self, &'static str>)
        ensures
            r is Err <==> bytes@.len() < 512,
            r matches Err(msg) ==> msg@ == "error : missing data, expected at least 512 bytes"@,
            r matches Ok(m) ==> m.encoding() == bytes@.subrange(0, 512),
    {
        if bytes.len() < 512 {
            return Err("error : missing data, expected at least 512 bytes");
        }
        let bootstrap = take_bootstrap(bytes);
        let p0 = PartitionTableEntry::from_bytes(slice_subrange(bytes, 446, 462))?;
        let p1 = PartitionTableEntry::from_bytes(slice_subrange(bytes, 462, 478))?;
        let p2 = PartitionTableEntry::from_bytes(slice_subrange(bytes, 478, 494))?;
        let p3 = PartitionTableEntry::from_bytes(slice_subrange(bytes, 494, 510))?;
        let m = MasterBootRecord {
            bootstrap,
            partitions: [p0, p1, p2, p3],
            signature: u16_from_le(bytes[510], bytes[511]),
        };
        proof {
            let s = bytes@;
            assert(s.subrange(446, 462).subrange(0, 16) =~= s.subrange(446, 462));
            assert(s.subrange(462, 478).subrange(0, 16) =~= s.subrange(462, 478));
            assert(s.subrange(478, 494).subrange(0, 16) =~= s.subrange(478, 494));
            assert(s.subrange(494, 510).subrange(0, 16) =~= s.subrange(494, 510));
            assert(m.encoding() =~= s.subrange(0, 512));
        }
        Ok(m)
    }

    /// Writes the boot record as one 512-byte sector.
    pub fn to_bytes(&self) -> (r: Result<[u8; 512], &'static str>)
        ensures
            r matches Ok(b) && b@ == self.encoding(),
    {
        let mut bytes = [0u8; 512];
        copy_into(&mut bytes, 0, &self.bootstrap);
        let mut i: usize = 0;
        while i < 4
            invariant
                0 <= i <= 4,
                bytes@.subrange(0, 446) == self.bootstrap@,
                forall|k: int|
                    0 <= k < i ==> #[trigger] bytes@.subrange(446 + 16 * k, 462 + 16 * k)
                        == self.partitions[k].encoding(),
            decreases 4 - i,
        {
            let entry = self.partitions[i].to_bytes()?;
            let ghost before = bytes@;
            copy_into(&mut bytes, 446 + 16 * i, &entry);
            proof {
                assert(bytes@.subrange(0, 446) =~= before.subrange(0, 446));
                assert forall|k: int| 0 <= k < i + 1 implies #[trigger] bytes@.subrange(
                    446 + 16 * k,
                    462 + 16 * k,
                ) == self.partitions[k].encoding() by {
                    if k < i {
                        assert(bytes@.subrange(446 + 16 * k, 462 + 16 * k) =~= before.subrange(
                            446 + 16 * k,
                            462 + 16 * k,
                        ));
                    }
                }
            }
            i = i + 1;
        }
        let sig = u16_to_le(self.signature);
        let ghost before = bytes@;
        copy_into(&mut bytes, 510, &sig);
        proof {
            assert(bytes@.subrange(0, 446) =~= before.subrange(0, 446));
            assert forall|k: int| 0 <= k < 4 implies #[trigger] bytes@.subrange(
                446 + 16 * k,
                462 + 16 * k,
            ) == self.partitions[k].encoding() by {
                assert(bytes@.subrange(446 + 16 * k, 462 + 16 * k) =~= before.subrange(
                    446 + 16 * k,
                    462 + 16 * k,
                ));
            }
            let s = bytes@;
            assert(s.subrange(446 + 16 * 0int, 462 + 16 * 0int) == self.partitions[0].encoding());
            assert(s.subrange(446 + 16 * 1int, 462 + 16 * 1int) == self.partitions[1].encoding());
            assert(s.subrange(446 + 16 * 2int, 462 + 16 * 2int) == self.partitions[2].encoding());
            assert(s.subrange(446 + 16 * 3int, 462 + 16 * 3int) == self.partitions[3].encoding());
            assert(s.subrange(510, 512) =~= le_u16_bytes(self.signature));
            assert(s =~= self.encoding());
        }
        Ok(bytes)
    }
}

impl Default for MasterBootRecord {
    /// An all-zero boot record: no boot code, four empty entries, no signature.
    fn default() -> (r: Self)
        ensures
            r.encoding() == Seq::new(512, |i: int| 0u8),
    {
        let p = PartitionTableEntry::default();
        let r = MasterBootRecord { bootstrap: [0u8; 446], partitions: [p, p, p, p], signature: 0 };
        assert(r.encoding() =~= Seq::new(512, |i: int| 0u8));
        r
    }
}

/// Copies the first 446 bytes of `bytes` into the boot code area.
fn take_bootstrap(bytes: &[u8]) -> (r: [u8; 446])
    requires
        bytes@.len() >= 446,
    ensures
        r@ == bytes@.subrange(0, 446),
{
    let mut r = [0u8; 446];
    let mut i: usize = 0;
    while i < 446
        invariant
            0 <= i <= 446,
            bytes@.len() >= 446,
            forall|k: int| 0 <= k < i ==> r@[k] == bytes@[k],
        decreases 446 - i,
    {
        r[i] = bytes[i];
        i = i + 1;
    }
    assert(r@ =~= bytes@.subrange(0, 446));
    r
}

/// Overwrites `dst[at..at + src.len()]` with `src`, leaving the rest as it was.
fn copy_into(dst: &mut [u8; 512], at: usize, src: &[u8])
    requires
        at + src@.len() <= 512,
    ensures
        final(dst)@ == old(dst)@.subrange(0, at as int) + src@ + old(dst)@.subrange(
            at + src@.len(),
            512,
        ),
{
    let mut i: usize = 0;
    while i < src.len()
        invariant
            0 <= i <= src@.len(),
            at + src@.len() <= 512,
            dst@.len() == 512,
            forall|k: int| 0 <= k < at ==> dst@[k] == old(dst)@[k],
            forall|k: int| 0 <= k < i ==> dst@[at + k] == src@[k],
            forall|k: int| at + i <= k < 512 ==> dst@[k] == old(dst)@[k],
        decreases src@.len() - i,
    {
        dst[at + i] = src[i];
        i = i + 1;
    }
    assert(dst@ =~= old(dst)@.subrange(0, at as int) + src@ + old(dst)@.subrange(
        at + src@.len(),
        512,
    ));
}

/// A boot record is determined by its 512 bytes, so reading back what
/// `to_bytes` wrote gives the same record.
pub proof fn lemma_mbr_encoding_injective(a: MasterBootRecord, b: MasterBootRecord)
    requires
        a.encoding() == b.encoding(),
    ensures
        a == b,
{
    let ea = a.encoding();
    let eb = b.encoding();
    assert(ea.subrange(0, 446) =~= a.bootstrap@);
    assert(eb.subrange(0, 446) =~= b.bootstrap@);
    assert(a.bootstrap =~= b.bootstrap);
    assert forall|k: int| 0 <= k < 4 implies a.partitions[k] == b.partitions[k] by {
        assert(ea.subrange(446 + 16 * k, 462 + 16 * k) =~= a.partitions[k].encoding());
        assert(eb.subrange(446 + 16 * k, 462 + 16 * k) =~= b.partitions[k].encoding());
        lemma_entry_encoding_injective(a.partitions[k], b.partitions[k]);
    }
    assert(a.partitions =~= b.partitions);
    assert(ea.subrange(510, 512) =~= le_u16_bytes(a.signature));
    assert(eb.subrange(510, 512) =~= le_u16_bytes(b.signature));
    lemma_le_u16_injective(a.signature, b.signature);
}

/// Every part of a boot record sits at a fixed place whatever its value:
/// bytes 0-445 the boot code, entry k at bytes 446 + 16k to 461 + 16k, and
/// the signature, little endian, in bytes 510-511.
pub proof fn lemma_mbr_field_positions(m: MasterBootRecord)
    ensures
        m.encoding().len() == 512,
        m.encoding().subrange(0, 446) == m.bootstrap@,
        forall|k: int|
            0 <= k < 4 ==> #[trigger] m.encoding().subrange(446 + 16 * k, 462 + 16 * k)
                == m.partitions[k].encoding(),
        m.encoding().subrange(510, 512) == le_u16_bytes(m.signature),
{
    let s = m.encoding();
    assert(s.subrange(0, 446) =~= m.bootstrap@);
    assert forall|k: int| 0 <= k < 4 implies #[trigger] s.subrange(446 + 16 * k, 462 + 16 * k)
        == m.partitions[k].encoding() by {
        assert(s.subrange(446 + 16 * k, 462 + 16 * k) =~= m.partitions[k].encoding());
    }
    assert(s.subrange(510, 512) =~= le_u16_bytes(m.signature));
}

/// The sector layout of a boot record is always 512 bytes long.
pub proof fn lemma_mbr_encoding_len(m: MasterBootRecord)
    ensures
        m.encoding().len() == MasterBootRecord::PACKED_SIZE,
{
}

/// Reading back the bytes that `to_bytes` wrote gives the same entry:
/// whatever `from_bytes` returns on `e.encoding()` is `e`.
pub proof fn lemma_entry_read_after_write(e: PartitionTableEntry, read: PartitionTableEntry)
    requires
        read.encoding() == e.encoding().subrange(0, 16),
    ensures
        read == e,
{
    assert(e.encoding().subrange(0, 16) =~= e.encoding());
    lemma_entry_encoding_injective(read, e);
}

/// Writing an entry that was read gives back the 16 bytes it was read from.
pub proof fn lemma_entry_write_after_read(bytes: Seq<u8>, read: PartitionTableEntry, written: Seq<u8>)
    requires
        bytes.len() >= 16,
        read.encoding() == bytes.subrange(0, 16),
        written == read.encoding(),
    ensures
        written == bytes.subrange(0, 16),
{
}

/// Reading back the sector that `to_bytes` wrote gives the same boot record:
/// whatever `from_bytes` returns on `m.encoding()` is `m`.
pub proof fn lemma_mbr_read_after_write(m: MasterBootRecord, read: MasterBootRecord)
    requires
        read.encoding() == m.encoding().subrange(0, 512),
    ensures
        read == m,
{
    assert(m.encoding().subrange(0, 512) =~= m.encoding());
    lemma_mbr_encoding_injective(read, m);
}

/// Writing a boot record that was read gives back the 512 bytes it was read from.
pub proof fn lemma_mbr_write_after_read(bytes: Seq<u8>, read: MasterBootRecord, written: Seq<u8>)
    requires
        bytes.len() >= 512,
        read.encoding() == bytes.subrange(0, 512),
        written == read.encoding(),
    ensures
        written == bytes.subrange(0, 512),
{
}

} // verus!
