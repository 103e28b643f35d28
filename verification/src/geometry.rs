//! Geometry of the flash array and spec-level models of its memory.

use vstd::prelude::*;

verus! {

/// Max size (in bytes) that can be written in a single page program operation.
pub const MEMORY_PAGE_SIZE: usize = 256;

/// Smallest erase granularity: one 4 KiB sector.
pub const SECTOR_SIZE: u32 = 4096;

/// Erase granularity of the 64 KiB block erase command.
pub const BLOCK_64K_SIZE: u32 = 65536;

/// Total capacity of the chip: 32 MiB.
pub const FLASH_DEVICE_SIZE: u32 = 0x0200_0000;

/// The address in memory where the flash chip is mapped when in memory
/// mapped mode.
pub const MEMORY_MAPPED_FLASH_ADDRESS: u32 = 0x7000_0000;

/// Manufacturer byte of the attached chip's identification code.
pub const MACRONIX_ID: u8 = 0xC2;

/// Second identification byte: memory type.
pub const DEVICE_MEMORY_TYPE: u8 = 0x80;

/// Third identification byte: memory density.
pub const DEVICE_DENSITY: u8 = 0x39;

/// The byte value a freshly erased cell reads back as.
pub const ERASED_BYTE: u8 = 0xFF;

/// `mem` with `data` written over the range starting at `addr`.
pub open spec fn overwrite(mem: Seq<u8>, addr: int, data: Seq<u8>) -> Seq<u8> {
    Seq::new(
        mem.len(),
        |i: int|
            if addr <= i < addr + data.len() {
                data[i - addr]
            } else {
                mem[i]
            },
    )
}

/// `mem` with every byte of `[start, start + len)` set to the erased value.
pub open spec fn erase_region(mem: Seq<u8>, start: int, len: int) -> Seq<u8> {
    Seq::new(
        mem.len(),
        |i: int|
            if start <= i < start + len {
                ERASED_BYTE
            } else {
                mem[i]
            },
    )
}

/// Every byte of `[start, start + len)` that lies inside `mem` is erased.
pub open spec fn region_erased(mem: Seq<u8>, start: int, len: int) -> bool {
    forall|i: int| start <= i < start + len && 0 <= i < mem.len() ==> mem[i] == ERASED_BYTE
}

/// `addr` rounded down to a multiple of `unit`.
pub open spec fn align_down(addr: int, unit: int) -> int {
    addr - addr % unit
}

/// The 32-bit little-endian word formed by `mem[a .. a + 4]`.
pub open spec fn word_at(mem: Seq<u8>, a: int) -> u32 {
    (mem[a] + mem[a + 1] * 0x100 + mem[a + 2] * 0x1_0000 + mem[a + 3] * 0x100_0000) as u32
}

/// Reading back a freshly written range returns exactly the written bytes.
/// Together with the mode switches' guarantee that the flash contents
/// survive a switch unchanged, this says that data written before a mode
/// round trip reads back identically after it.
pub proof fn lemma_write_read_back(mem: Seq<u8>, addr: int, data: Seq<u8>)
    requires
        0 <= addr,
        addr + data.len() <= mem.len(),
    ensures
        overwrite(mem, addr, data).subrange(addr, addr + data.len()) == data,
{
    assert(overwrite(mem, addr, data).subrange(addr, addr + data.len()) =~= data);
}

/// Erasing a region twice in a row yields the same contents as erasing it
/// once.
pub proof fn lemma_erase_idempotent(mem: Seq<u8>, start: int, len: int)
    ensures
        erase_region(erase_region(mem, start, len), start, len) == erase_region(mem, start, len),
{
    assert(erase_region(erase_region(mem, start, len), start, len) =~= erase_region(
        mem,
        start,
        len,
    ));
}

/// Erasing a region whose bytes are already erased leaves the memory
/// unchanged, so a read after the erase still returns all erased bytes.
pub proof fn lemma_erase_of_erased_region(mem: Seq<u8>, start: int, len: int)
    requires
        region_erased(mem, start, len),
    ensures
        erase_region(mem, start, len) == mem,
        region_erased(erase_region(mem, start, len), start, len),
{
    assert(erase_region(mem, start, len) =~= mem);
}

} // verus!
