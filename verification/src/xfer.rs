//! Transfer descriptors: the structured description of one bus transaction.

use vstd::prelude::*;

verus! {

/// How many data lines a phase of a transaction drives.  `Off` means the
/// phase is absent from the transaction.
#[derive(Clone, Copy, PartialEq, Eq, Structural, Debug)]
pub enum BusWidth {
    Off,
    Single,
    Octal,
}

/// Bit width of the instruction phase or of the address phase.
#[derive(Clone, Copy, PartialEq, Eq, Structural, Debug)]
pub enum PhaseSize {
    Bits8,
    Bits16,
    Bits24,
    Bits32,
}

/// The full shape of one bus transaction: instruction width and size,
/// address width and size, data width, dummy-cycle count, optional opcode
/// and optional address.  Whether data moves, in which direction, and how
/// much of it, is determined by which operation of the bus the descriptor
/// is handed to.
#[derive(Clone, Copy)]
pub struct Transfer {
    pub iwidth: BusWidth,
    pub instr_size: PhaseSize,
    pub adwidth: BusWidth,
    pub addr_size: PhaseSize,
    pub dwidth: BusWidth,
    pub instruction: Option<u32>,
    pub address: Option<u32>,
    pub dummy: u8,
}

/// The instruction, address and (when present) data phases of `t` all use
/// the line widths and sizes of single-line SPI mode: 8-bit opcodes on one
/// line, 32-bit addresses on one line.
pub open spec fn spi_shape(t: Transfer) -> bool {
    &&& t.iwidth == BusWidth::Single
    &&& t.instr_size == PhaseSize::Bits8
    &&& (t.address is Some ==> t.adwidth == BusWidth::Single && t.addr_size == PhaseSize::Bits32)
    &&& (t.address is None ==> t.adwidth == BusWidth::Off)
    &&& (t.dwidth == BusWidth::Off || t.dwidth == BusWidth::Single)
    &&& (t.instruction is Some ==> t.instruction->0 <= 0xFF)
}

/// The instruction, address and (when present) data phases of `t` all use
/// the line widths and sizes of eight-line OPI mode: 16-bit opcodes and
/// 32-bit addresses, each on eight lines.
pub open spec fn opi_shape(t: Transfer) -> bool {
    &&& t.iwidth == BusWidth::Octal
    &&& t.instr_size == PhaseSize::Bits16
    &&& (t.address is Some ==> t.adwidth == BusWidth::Octal && t.addr_size == PhaseSize::Bits32)
    &&& (t.address is None ==> t.adwidth == BusWidth::Off)
    &&& (t.dwidth == BusWidth::Off || t.dwidth == BusWidth::Octal)
    &&& (t.instruction is Some ==> t.instruction->0 <= 0xFFFF)
}

/// The descriptor's electrical shape agrees with the chip's current mode.
pub open spec fn mode_shape(t: Transfer, opi: bool) -> bool {
    if opi {
        opi_shape(t)
    } else {
        spi_shape(t)
    }
}

} // verus!
