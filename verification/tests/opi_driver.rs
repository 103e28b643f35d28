//! Tests of the OPI-mode controller and of the mode switches.

use flash_lib::chip::FlashChip;
use flash_lib::geometry::MACRONIX_ID;
use flash_lib::opi::OpiFlashMemory;
use flash_lib::spi::SpiFlashMemory;

fn fresh_octo() -> OpiFlashMemory {
    SpiFlashMemory::new(FlashChip::power_on(3)).into_octo()
}

fn read_back_opi(flash: &mut OpiFlashMemory, addr: u32, len: usize) -> Vec<u8> {
    let mut buf = vec![0u8; len];
    flash.read_memory(addr, &mut buf);
    buf
}

#[test]
fn opi_read_id() {
    let mut flash = fresh_octo();
    let id = flash.read_id();
    assert_eq!(id, [0xC2, 0x80, 0x39]);
}

#[test]
fn opi_write_and_read() {
    let mut flash = fresh_octo();
    flash.erase_sector(0);
    let data: Vec<u8> = (0u32..600).map(|i| (i % 253) as u8).collect();
    flash.write_memory(200, &data);
    assert_eq!(read_back_opi(&mut flash, 200, 600), data);
}

#[test]
fn opi_registers() {
    let mut flash = fresh_octo();
    assert_eq!(flash.read_sr(), 0x00);
    flash.enable_write();
    assert_eq!(flash.read_sr(), 0x02);
    flash.write_sr_cr(0x0C, 0x05);
    assert_eq!(flash.read_sr(), 0x0C);
    assert_eq!(flash.read_cr(), 0x05);
    // The OPI-select bit of configuration register 2 is set while the
    // chip is in OPI mode.
    assert_eq!(flash.read_cr2(0), 0x01);
}

#[test]
fn opi_erase_sector() {
    let mut flash = fresh_octo();
    flash.erase_sector(0);
    flash.write_memory(100, &[3u8; 8]);
    flash.erase_sector(300);
    assert_eq!(read_back_opi(&mut flash, 100, 8), vec![0xFF; 8]);
}

#[test]
fn opi_reset_returns_chip_to_spi() {
    let mut flash = fresh_octo();
    flash.erase_sector(0);
    flash.write_memory(8, &[0x5A; 4]);
    // A soft reset restores the volatile configuration register 2 to its
    // power-on default, so the chip falls back to SPI mode and the
    // OPI-tagged handle is spent; a fresh SPI controller takes over the
    // bus.  The array contents survive both the reset and the takeover.
    flash.reset_memory();
    let mut flash = SpiFlashMemory::new(flash.bus);
    assert_eq!(flash.read_cr2(0), 0x00);
    assert_eq!(flash.read_id()[0], MACRONIX_ID);
    let mut buf = vec![0u8; 4];
    flash.read_memory(8, &mut buf);
    assert_eq!(buf, vec![0x5A; 4]);
}

#[test]
fn mode_round_trip_preserves_data() {
    let mut flash = SpiFlashMemory::new(FlashChip::power_on(3));
    flash.erase_sector(0);
    let written: Vec<u8> = (0u32..512).map(|i| (i * 7 % 256) as u8).collect();
    flash.write_memory(64, &written);

    // Switch to OPI: the chip still identifies itself and serves reads.
    let mut flash = flash.into_octo();
    assert_eq!(flash.read_id(), [0xC2, 0x80, 0x39]);
    assert_eq!(read_back_opi(&mut flash, 64, 512), written);
    let more: Vec<u8> = (0u32..64).map(|i| (255 - i) as u8).collect();
    flash.write_memory(1024, &more);

    // And back to SPI: everything written in either mode reads back
    // identically.
    let mut flash = flash.into_spi();
    assert_eq!(flash.read_id(), [0xC2, 0x80, 0x39]);
    let mut buf = vec![0u8; 512];
    flash.read_memory(64, &mut buf);
    assert_eq!(buf, written);
    let mut buf = vec![0u8; 64];
    flash.read_memory(1024, &mut buf);
    assert_eq!(buf, more);
}

#[test]
fn reverse_round_trip_preserves_data() {
    let mut flash = fresh_octo();
    flash.erase_sector(0);
    flash.write_memory(0, &[1, 2, 3, 4, 5]);
    let mut flash = flash.into_spi();
    let mut buf = vec![0u8; 5];
    flash.read_memory(0, &mut buf);
    assert_eq!(buf, vec![1, 2, 3, 4, 5]);
    let mut flash = flash.into_octo();
    assert_eq!(read_back_opi(&mut flash, 0, 5), vec![1, 2, 3, 4, 5]);
}
