//! Tests of the SPI-mode controller against the modelled chip.

use flash_lib::chip::FlashChip;
use flash_lib::geometry::{
    DEVICE_DENSITY, DEVICE_MEMORY_TYPE, FLASH_DEVICE_SIZE, MACRONIX_ID,
};
use flash_lib::spi::SpiFlashMemory;

fn fresh_flash() -> SpiFlashMemory {
    SpiFlashMemory::new(FlashChip::power_on(3))
}

fn read_back(flash: &mut SpiFlashMemory, addr: u32, len: usize) -> Vec<u8> {
    let mut buf = vec![0u8; len];
    flash.read_memory(addr, &mut buf);
    buf
}

#[test]
fn read_id_reports_macronix_chip() {
    let mut flash = fresh_flash();
    let id = flash.read_id();
    assert_eq!(id, [MACRONIX_ID, DEVICE_MEMORY_TYPE, DEVICE_DENSITY]);
    assert_eq!(id[0], 0xC2);
}

#[test]
fn fresh_chip_reads_erased() {
    let mut flash = fresh_flash();
    let buf = read_back(&mut flash, 0, 64);
    assert!(buf.iter().all(|&b| b == 0xFF));
    let tail = read_back(&mut flash, FLASH_DEVICE_SIZE - 16, 16);
    assert!(tail.iter().all(|&b| b == 0xFF));
}

#[test]
fn write_then_read_back() {
    let mut flash = fresh_flash();
    flash.erase_sector(0);
    let data: Vec<u8> = (0u32..16).map(|i| (i * 3 + 1) as u8).collect();
    flash.write_memory(5, &data);
    assert_eq!(read_back(&mut flash, 5, 16), data);
    // Neighbours are untouched.
    assert_eq!(read_back(&mut flash, 4, 1), vec![0xFF]);
    assert_eq!(read_back(&mut flash, 21, 1), vec![0xFF]);
}

#[test]
fn page_crossing_write_does_not_wrap() {
    let mut flash = fresh_flash();
    flash.erase_sector(0);
    // 300 bytes starting 6 bytes before a page boundary: the split must
    // program 6 bytes in the first page, then 256, then 38.
    let data: Vec<u8> = (0u32..300).map(|i| (i % 251) as u8).collect();
    flash.write_memory(250, &data);
    assert_eq!(read_back(&mut flash, 250, 300), data);
    assert_eq!(read_back(&mut flash, 249, 1), vec![0xFF]);
    assert_eq!(read_back(&mut flash, 550, 1), vec![0xFF]);
}

#[test]
fn multi_page_unaligned_write() {
    let mut flash = fresh_flash();
    flash.erase_sector(0);
    let data: Vec<u8> = (0u32..1000).map(|i| (i % 256) as u8).collect();
    flash.write_memory(0x123, &data);
    assert_eq!(read_back(&mut flash, 0x123, 1000), data);
}

#[test]
fn write_empty_buffer_changes_nothing() {
    let mut flash = fresh_flash();
    flash.erase_sector(0);
    flash.write_memory(100, &[1, 2, 3]);
    flash.write_memory(100, &[]);
    assert_eq!(read_back(&mut flash, 100, 3), vec![1, 2, 3]);
}

#[test]
fn erase_sector_aligns_address_down() {
    let mut flash = fresh_flash();
    flash.erase_sector(0);
    flash.erase_sector(4096);
    flash.write_memory(4090, &[7u8; 12]);
    // An address in the middle of the second sector erases that whole
    // sector and nothing else.
    flash.erase_sector(4500);
    assert_eq!(read_back(&mut flash, 4090, 6), vec![7u8; 6]);
    assert_eq!(read_back(&mut flash, 4096, 6), vec![0xFF; 6]);
    assert_eq!(read_back(&mut flash, 8191, 1), vec![0xFF]);
}

#[test]
fn erase_block_64k_aligns_address_down() {
    let mut flash = fresh_flash();
    flash.erase_sector(0);
    flash.write_memory(10, &[5u8; 4]);
    flash.write_memory(65540, &[6u8; 4]);
    flash.erase_block_64k(70000);
    assert_eq!(read_back(&mut flash, 10, 4), vec![5u8; 4]);
    assert_eq!(read_back(&mut flash, 65540, 4), vec![0xFF; 4]);
}

#[test]
fn erase_chip_clears_everything() {
    let mut flash = fresh_flash();
    flash.write_memory(0, &[1, 2, 3, 4]);
    flash.write_memory(1_000_000, &[9u8; 8]);
    flash.erase_chip();
    assert_eq!(read_back(&mut flash, 0, 4), vec![0xFF; 4]);
    assert_eq!(read_back(&mut flash, 1_000_000, 8), vec![0xFF; 8]);
}

#[test]
fn erase_is_idempotent() {
    let mut flash = fresh_flash();
    flash.erase_sector(0);
    let first = read_back(&mut flash, 0, 4096);
    assert!(first.iter().all(|&b| b == 0xFF));
    // Erasing the already-erased sector again is safe and yields the same
    // contents.
    flash.erase_sector(0);
    let second = read_back(&mut flash, 0, 4096);
    assert_eq!(first, second);
}

#[test]
fn write_at_end_of_device() {
    let mut flash = fresh_flash();
    let start = FLASH_DEVICE_SIZE - 300;
    flash.erase_sector(start);
    flash.erase_sector(FLASH_DEVICE_SIZE - 1);
    let data: Vec<u8> = (0u32..300).map(|i| (i % 97) as u8).collect();
    flash.write_memory(start, &data);
    assert_eq!(read_back(&mut flash, start, 300), data);
}

#[test]
fn aligned_full_page_write_is_one_chunk() {
    let mut flash = fresh_flash();
    flash.erase_sector(0);
    let data = vec![0x3Cu8; 256];
    flash.write_memory(512, &data);
    assert_eq!(read_back(&mut flash, 512, 256), data);
    assert_eq!(read_back(&mut flash, 511, 1), vec![0xFF]);
    assert_eq!(read_back(&mut flash, 768, 1), vec![0xFF]);
}

#[test]
fn status_register_tracks_write_enable() {
    let mut flash = fresh_flash();
    assert_eq!(flash.read_sr(), 0x00);
    flash.enable_write();
    assert_eq!(flash.read_sr(), 0x02);
}

#[test]
fn write_sr_cr_updates_registers() {
    let mut flash = fresh_flash();
    assert_eq!(flash.read_cr(), 0x00);
    flash.write_sr_cr(0x44, 0x07);
    // The write-enable latch clears when the write completes, so only the
    // stored high bits remain in the status byte.
    assert_eq!(flash.read_sr(), 0x44);
    assert_eq!(flash.read_cr(), 0x07);
}

#[test]
fn cr2_round_trip() {
    let mut flash = fresh_flash();
    assert_eq!(flash.read_cr2(0), 0x00);
    // Bit 0 selects OPI mode; writing an even value keeps the chip in SPI.
    flash.write_cr2(0, 0x02);
    assert_eq!(flash.read_cr2(0), 0x02);
    assert_eq!(flash.read_id()[0], MACRONIX_ID);
}

#[test]
fn reset_restores_cr2_power_on_default() {
    let mut flash = fresh_flash();
    flash.write_cr2(0, 0x02);
    assert_eq!(flash.read_cr2(0), 0x02);
    flash.reset_memory();
    assert_eq!(flash.read_cr2(0), 0x00);
}

#[test]
fn reset_memory_clears_write_enable() {
    let mut flash = fresh_flash();
    flash.write_memory(40, &[0xAB; 2]);
    flash.enable_write();
    assert_eq!(flash.read_sr(), 0x02);
    flash.reset_memory();
    assert_eq!(flash.read_sr(), 0x00);
    // A soft reset does not disturb the array contents.
    assert_eq!(read_back(&mut flash, 40, 2), vec![0xAB; 2]);
}
