//! Driver logic for a 32 MiB quad/octal-SPI NOR flash chip.
//!
//! The driver speaks the chip's command protocol in two electrical modes
//! (single-line SPI and eight-line OPI), builds one transfer descriptor per
//! bus transaction, splits bulk writes on page boundaries, enforces the
//! write-enable/busy-poll discipline that every mutating command needs, and
//! switches the bus between explicit command mode and a memory-mapped
//! window.  The bus and the chip behind it are modelled by `chip::FlashChip`,
//! whose contracts state exactly which transactions the hardware accepts and
//! what each one does to the chip's state.

pub mod chip;
pub mod commands;
pub mod geometry;
pub mod opi;
pub mod spi;
pub mod split;
pub mod xfer;

pub use geometry::MACRONIX_ID;
pub use geometry::MEMORY_MAPPED_FLASH_ADDRESS;
pub use opi::OpiFlashMemory;
pub use spi::SpiFlashMemory;
