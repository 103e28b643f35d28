//! The chip's command protocol: the two fixed opcode tables (one per
//! electrical mode) and the decoding of wire opcodes back to logical
//! operations.

use vstd::prelude::*;

verus! {

// SPI mode commands (1-byte opcodes).
// Array access commands.
/// Read data bytes using 3-byte address (up to 50 MHz).
pub const SPI_READ_3B: u8 = 0x03;

/// Fast read data bytes using 3-byte address with 8 dummy cycles.
pub const SPI_FAST_READ_3B: u8 = 0x0B;

/// Program 1-256 bytes of data using 3-byte address.
pub const SPI_PAGE_PROGRAM_3B: u8 = 0x02;

/// Erase 4KB sector using 3-byte address.
pub const SPI_SECTOR_ERASE_3B: u8 = 0x20;

/// Erase 64KB block using 3-byte address.
pub const SPI_BLOCK_ERASE_3B: u8 = 0xD8;

/// Read data bytes using 4-byte address (up to 50 MHz).
pub const SPI_READ_4B: u8 = 0x13;

/// Fast read data bytes using 4-byte address with 8 dummy cycles.
pub const SPI_FAST_READ_4B: u8 = 0x0C;

/// Program 1-256 bytes of data using 4-byte address.
pub const SPI_PAGE_PROGRAM_4B: u8 = 0x12;

/// Erase 4KB sector using 4-byte address.
pub const SPI_SECTOR_ERASE_4B: u8 = 0x21;

/// Erase 64KB block using 4-byte address.
pub const SPI_BLOCK_ERASE_4B: u8 = 0xDC;

/// Erase entire chip (only if no blocks are protected).
pub const SPI_CHIP_ERASE: u8 = 0x60;

// Device operation commands.
/// Set Write Enable Latch (WEL) bit; required before any mutating command.
pub const SPI_WRITE_ENABLE: u8 = 0x06;

/// Clear Write Enable Latch (WEL) bit.
pub const SPI_WRITE_DISABLE: u8 = 0x04;

/// No operation; can terminate a Reset Enable command.
pub const SPI_NO_OPERATION: u8 = 0x00;

/// Enable reset operation (must precede Reset Memory).
pub const SPI_RESET_ENABLE: u8 = 0x66;

/// Reset device to power-on state (requires prior Reset Enable).
pub const SPI_RESET_MEMORY: u8 = 0x99;

// Register access commands.
/// Read 3-byte device identification.
pub const SPI_READ_ID: u8 = 0x9F;

/// Read 8-bit Status Register.
pub const SPI_READ_STATUS: u8 = 0x05;

/// Read 8-bit Configuration Register.
pub const SPI_READ_CONFIG: u8 = 0x15;

/// Write Status and Configuration Register (2 bytes).
pub const SPI_WRITE_STATUS_CONFIG: u8 = 0x01;

/// Read Configuration Register 2 from a 4-byte address.
pub const SPI_READ_CONFIG2: u8 = 0x71;

/// Write Configuration Register 2 to a 4-byte address.
pub const SPI_WRITE_CONFIG2: u8 = 0x72;

// OPI mode commands (2-byte opcodes).
// Array access commands.
/// Read data using 8 I/O lines with configurable dummy cycles.
pub const OPI_OCTA_READ: u16 = 0xEC13;

/// Program 1-256 bytes using 4-byte address and 8 I/O lines.
pub const OPI_PAGE_PROGRAM_4B: u16 = 0x12ED;

/// Erase 4KB sector using 4-byte address.
pub const OPI_SECTOR_ERASE_4B: u16 = 0x21DE;

/// Erase 64KB block using 4-byte address.
pub const OPI_BLOCK_ERASE_4B: u16 = 0xDC23;

/// Erase entire chip (only if no blocks are protected).
pub const OPI_CHIP_ERASE: u16 = 0x609F;

// Device operation commands.
/// Set Write Enable Latch (WEL) bit; required before any mutating command.
pub const OPI_WRITE_ENABLE: u16 = 0x06F9;

/// Clear Write Enable Latch (WEL) bit.
pub const OPI_WRITE_DISABLE: u16 = 0x04FB;

/// No operation; can terminate a Reset Enable command.
pub const OPI_NO_OPERATION: u16 = 0x00FF;

/// Enable reset operation (must precede Reset Memory).
pub const OPI_RESET_ENABLE: u16 = 0x6699;

/// Reset device to power-on state (requires prior Reset Enable).
pub const OPI_RESET_MEMORY: u16 = 0x9966;

// Register access commands.
/// Read 3-byte device identification with 4-byte dummy address.
pub const OPI_READ_ID: u16 = 0x9F60;

/// Read 8-bit Status Register with 4-byte dummy address.
pub const OPI_READ_STATUS: u16 = 0x05FA;

/// Read 8-bit Configuration Register at address 1.
pub const OPI_READ_CONFIG: u16 = 0x15EA;

/// Write Status Register (address 0) and Configuration Register (address 1).
pub const OPI_WRITE_STATUS_CONFIG: u16 = 0x01FE;

/// Read Configuration Register 2 from a 4-byte address.
pub const OPI_READ_CONFIG2: u16 = 0x718E;

/// Write Configuration Register 2 to a 4-byte address.
pub const OPI_WRITE_CONFIG2: u16 = 0x728D;

/// The logical operations of the chip that this driver issues.  Each has a
/// wire opcode in both electrical modes (the two tables above).
#[derive(Clone, Copy, PartialEq, Eq, Structural, Debug)]
pub enum FlashOp {
    WriteEnable,
    ResetEnable,
    ResetMemory,
    ChipErase,
    SectorErase,
    BlockErase,
    PageProgram,
    FastRead,
    ReadId,
    ReadStatus,
    ReadConfig,
    WriteStatusConfig,
    ReadConfig2,
    WriteConfig2,
}

/// The operation mutates chip state and therefore requires the write-enable
/// latch to be set when it is issued.
pub open spec fn mutating(op: FlashOp) -> bool {
    match op {
        FlashOp::ChipErase => true,
        FlashOp::SectorErase => true,
        FlashOp::BlockErase => true,
        FlashOp::PageProgram => true,
        FlashOp::WriteStatusConfig => true,
        FlashOp::WriteConfig2 => true,
        _ => false,
    }
}

/// What the chip makes of a 1-byte opcode received in SPI mode.
pub open spec fn spec_decode_spi(instr: u32) -> Option<FlashOp> {
    if instr == SPI_WRITE_ENABLE as u32 {
        Some(FlashOp::WriteEnable)
    } else if instr == SPI_RESET_ENABLE as u32 {
        Some(FlashOp::ResetEnable)
    } else if instr == SPI_RESET_MEMORY as u32 {
        Some(FlashOp::ResetMemory)
    } else if instr == SPI_CHIP_ERASE as u32 {
        Some(FlashOp::ChipErase)
    } else if instr == SPI_SECTOR_ERASE_4B as u32 {
        Some(FlashOp::SectorErase)
    } else if instr == SPI_BLOCK_ERASE_4B as u32 {
        Some(FlashOp::BlockErase)
    } else if instr == SPI_PAGE_PROGRAM_4B as u32 {
        Some(FlashOp::PageProgram)
    } else if instr == SPI_FAST_READ_4B as u32 {
        Some(FlashOp::FastRead)
    } else if instr == SPI_READ_ID as u32 {
        Some(FlashOp::ReadId)
    } else if instr == SPI_READ_STATUS as u32 {
        Some(FlashOp::ReadStatus)
    } else if instr == SPI_READ_CONFIG as u32 {
        Some(FlashOp::ReadConfig)
    } else if instr == SPI_WRITE_STATUS_CONFIG as u32 {
        Some(FlashOp::WriteStatusConfig)
    } else if instr == SPI_READ_CONFIG2 as u32 {
        Some(FlashOp::ReadConfig2)
    } else if instr == SPI_WRITE_CONFIG2 as u32 {
        Some(FlashOp::WriteConfig2)
    } else {
        None
    }
}

/// What the chip makes of a 2-byte opcode received in OPI mode.
pub open spec fn spec_decode_opi(instr: u32) -> Option<FlashOp> {
    if instr == OPI_WRITE_ENABLE as u32 {
        Some(FlashOp::WriteEnable)
    } else if instr == OPI_RESET_ENABLE as u32 {
        Some(FlashOp::ResetEnable)
    } else if instr == OPI_RESET_MEMORY as u32 {
        Some(FlashOp::ResetMemory)
    } else if instr == OPI_CHIP_ERASE as u32 {
        Some(FlashOp::ChipErase)
    } else if instr == OPI_SECTOR_ERASE_4B as u32 {
        Some(FlashOp::SectorErase)
    } else if instr == OPI_BLOCK_ERASE_4B as u32 {
        Some(FlashOp::BlockErase)
    } else if instr == OPI_PAGE_PROGRAM_4B as u32 {
        Some(FlashOp::PageProgram)
    } else if instr == OPI_OCTA_READ as u32 {
        Some(FlashOp::FastRead)
    } else if instr == OPI_READ_ID as u32 {
        Some(FlashOp::ReadId)
    } else if instr == OPI_READ_STATUS as u32 {
        Some(FlashOp::ReadStatus)
    } else if instr == OPI_READ_CONFIG as u32 {
        Some(FlashOp::ReadConfig)
    } else if instr == OPI_WRITE_STATUS_CONFIG as u32 {
        Some(FlashOp::WriteStatusConfig)
    } else if instr == OPI_READ_CONFIG2 as u32 {
        Some(FlashOp::ReadConfig2)
    } else if instr == OPI_WRITE_CONFIG2 as u32 {
        Some(FlashOp::WriteConfig2)
    } else {
        None
    }
}

/// What the chip makes of an opcode, given its current electrical mode.
pub open spec fn spec_decode(opi: bool, instr: u32) -> Option<FlashOp> {
    if opi {
        spec_decode_opi(instr)
    } else {
        spec_decode_spi(instr)
    }
}

/// Runtime decoding of an opcode, as the modelled chip performs it.
pub fn decode(opi: bool, instr: u32) -> (r: Option<FlashOp>)
    ensures
        r == spec_decode(opi, instr),
{
    if opi {
        if instr == OPI_WRITE_ENABLE as u32 {
            Some(FlashOp::WriteEnable)
        } else if instr == OPI_RESET_ENABLE as u32 {
            Some(FlashOp::ResetEnable)
        } else if instr == OPI_RESET_MEMORY as u32 {
            Some(FlashOp::ResetMemory)
        } else if instr == OPI_CHIP_ERASE as u32 {
            Some(FlashOp::ChipErase)
        } else if instr == OPI_SECTOR_ERASE_4B as u32 {
            Some(FlashOp::SectorErase)
        } else if instr == OPI_BLOCK_ERASE_4B as u32 {
            Some(FlashOp::BlockErase)
        } else if instr == OPI_PAGE_PROGRAM_4B as u32 {
            Some(FlashOp::PageProgram)
        } else if instr == OPI_OCTA_READ as u32 {
            Some(FlashOp::FastRead)
        } else if instr == OPI_READ_ID as u32 {
            Some(FlashOp::ReadId)
        } else if instr == OPI_READ_STATUS as u32 {
            Some(FlashOp::ReadStatus)
        } else if instr == OPI_READ_CONFIG as u32 {
            Some(FlashOp::ReadConfig)
        } else if instr == OPI_WRITE_STATUS_CONFIG as u32 {
            Some(FlashOp::WriteStatusConfig)
        } else if instr == OPI_READ_CONFIG2 as u32 {
            Some(FlashOp::ReadConfig2)
        } else if instr == OPI_WRITE_CONFIG2 as u32 {
            Some(FlashOp::WriteConfig2)
        } else {
            None
        }
    } else {
        if instr == SPI_WRITE_ENABLE as u32 {
            Some(FlashOp::WriteEnable)
        } else if instr == SPI_RESET_ENABLE as u32 {
            Some(FlashOp::ResetEnable)
        } else if instr == SPI_RESET_MEMORY as u32 {
            Some(FlashOp::ResetMemory)
        } else if instr == SPI_CHIP_ERASE as u32 {
            Some(FlashOp::ChipErase)
        } else if instr == SPI_SECTOR_ERASE_4B as u32 {
            Some(FlashOp::SectorErase)
        } else if instr == SPI_BLOCK_ERASE_4B as u32 {
            Some(FlashOp::BlockErase)
        } else if instr == SPI_PAGE_PROGRAM_4B as u32 {
            Some(FlashOp::PageProgram)
        } else if instr == SPI_FAST_READ_4B as u32 {
            Some(FlashOp::FastRead)
        } else if instr == SPI_READ_ID as u32 {
            Some(FlashOp::ReadId)
        } else if instr == SPI_READ_STATUS as u32 {
            Some(FlashOp::ReadStatus)
        } else if instr == SPI_READ_CONFIG as u32 {
            Some(FlashOp::ReadConfig)
        } else if instr == SPI_WRITE_STATUS_CONFIG as u32 {
            Some(FlashOp::WriteStatusConfig)
        } else if instr == SPI_READ_CONFIG2 as u32 {
            Some(FlashOp::ReadConfig2)
        } else if instr == SPI_WRITE_CONFIG2 as u32 {
            Some(FlashOp::WriteConfig2)
        } else {
            None
        }
    }
}

/// Dummy cycles the chip needs between the address phase and the data phase
/// of a read, by mode: SPI fast reads need 8, OPI array reads need 20
/// (the higher OPI clock rate needs more settling time), OPI register reads
/// need 4, and SPI register reads none.
pub open spec fn required_dummy(opi: bool, op: FlashOp) -> u8 {
    match op {
        FlashOp::FastRead => if opi {
            20
        } else {
            8
        },
        FlashOp::ReadId => if opi {
            4
        } else {
            0
        },
        FlashOp::ReadStatus => if opi {
            4
        } else {
            0
        },
        FlashOp::ReadConfig => if opi {
            4
        } else {
            0
        },
        FlashOp::ReadConfig2 => if opi {
            4
        } else {
            0
        },
        _ => 0,
    }
}

} // verus!
