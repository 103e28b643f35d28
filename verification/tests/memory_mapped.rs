//! Tests of memory-mapped mode: the self-test scenario and the window
//! primitives in both electrical modes.

use flash_lib::chip::FlashChip;
use flash_lib::geometry::MEMORY_MAPPED_FLASH_ADDRESS;
use flash_lib::spi::SpiFlashMemory;

fn fresh_flash() -> SpiFlashMemory {
    SpiFlashMemory::new(FlashChip::power_on(3))
}

#[test]
fn memory_mapped_self_test() {
    let mut flash = fresh_flash();

    // Erase the first sector and fill it with byte i = i mod 256.
    flash.erase_sector(0);
    let mut wr_buf = vec![0u8; 0x1000];
    for (i, b) in wr_buf.iter_mut().enumerate() {
        *b = (i & 0xFF) as u8;
    }
    flash.write_memory(0, &wr_buf);

    // Read back the first 8 bytes with the fast-read command and verify
    // them before mapping.
    let mut rd_buf = vec![0u8; 8];
    flash.read_memory(0, &mut rd_buf);
    assert_eq!(rd_buf, wr_buf[..8].to_vec());

    // Enable memory-mapped mode and read the sector back as 1024
    // little-endian 32-bit words.
    flash.enable_mm();
    assert_eq!(flash.mm_read_u32(MEMORY_MAPPED_FLASH_ADDRESS), 0x03020100);
    assert_eq!(flash.mm_read_u32(MEMORY_MAPPED_FLASH_ADDRESS + 4), 0x07060504);
    for pos in 0..1024u32 {
        let val = flash.mm_read_u32(MEMORY_MAPPED_FLASH_ADDRESS + 4 * pos);
        let byte0 = ((pos * 4) & 0xFF) as u32;
        let byte1 = (byte0 + 1) << 8;
        let byte2 = (byte0 + 2) << 16;
        let byte3 = (byte0 + 3) << 24;
        let expected = byte0 + byte1 + byte2 + byte3;
        assert_eq!(val, expected, "mismatch at word {}", pos);
    }

    // Back to command mode: explicit reads still work.
    flash.disable_mm();
    let mut rd_buf = vec![0u8; 16];
    flash.read_memory(16, &mut rd_buf);
    assert_eq!(rd_buf, wr_buf[16..32].to_vec());
}

#[test]
fn mm_read_u8_window() {
    let mut flash = fresh_flash();
    flash.erase_sector(0);
    flash.write_memory(10, &[0xAB, 0xCD]);
    flash.enable_mm();
    assert_eq!(flash.mm_read_u8(MEMORY_MAPPED_FLASH_ADDRESS + 10), 0xAB);
    assert_eq!(flash.mm_read_u8(MEMORY_MAPPED_FLASH_ADDRESS + 11), 0xCD);
    assert_eq!(flash.mm_read_u8(MEMORY_MAPPED_FLASH_ADDRESS + 12), 0xFF);
}

#[test]
fn opi_memory_mapped_read() {
    let mut flash = fresh_flash();
    flash.erase_sector(0);
    flash.write_memory(0, &[0x78, 0x56, 0x34, 0x12]);
    let mut flash = flash.into_octo();
    flash.enable_mm();
    assert_eq!(flash.mm_read_u32(MEMORY_MAPPED_FLASH_ADDRESS), 0x12345678);
    assert_eq!(flash.mm_read_u8(MEMORY_MAPPED_FLASH_ADDRESS + 3), 0x12);
    flash.disable_mm();
    assert_eq!(flash.read_id()[0], 0xC2);
}

#[test]
fn disable_mm_restores_command_mode() {
    let mut flash = fresh_flash();
    flash.erase_sector(0);
    flash.enable_mm();
    assert_eq!(flash.mm_read_u8(MEMORY_MAPPED_FLASH_ADDRESS), 0xFF);
    flash.disable_mm();
    flash.write_memory(0, &[0x11]);
    let mut buf = vec![0u8; 1];
    flash.read_memory(0, &mut buf);
    assert_eq!(buf, vec![0x11]);
}
