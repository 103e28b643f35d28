//! The flash controller in single-line SPI mode.
//!
//! A `SpiFlashMemory` owns the bus exclusively while the chip's interface
//! is in SPI mode.  Switching to OPI mode consumes the controller and
//! yields an `OpiFlashMemory` that owns the same bus, so a handle of the
//! wrong electrical mode cannot exist alongside the live one: issuing an
//! SPI-width command while the chip is electrically in OPI mode is ruled
//! out by construction.

use vstd::prelude::*;

use crate::chip::{
    fixed_frame, lemma_status_wip_bit, mm_read_template, mm_write_template, same_registers,
    same_stored_state, status_polls_appended, FlashChip,
};
use crate::commands::{
    spec_decode, FlashOp, SPI_BLOCK_ERASE_4B, SPI_CHIP_ERASE, SPI_FAST_READ_4B,
    SPI_PAGE_PROGRAM_4B, SPI_READ_CONFIG, SPI_READ_CONFIG2, SPI_READ_ID, SPI_READ_STATUS,
    SPI_RESET_ENABLE, SPI_RESET_MEMORY, SPI_SECTOR_ERASE_4B, SPI_WRITE_CONFIG2,
    SPI_WRITE_ENABLE, SPI_WRITE_STATUS_CONFIG,
};
use crate::geometry::{
    align_down, erase_region, overwrite, region_erased, word_at, BLOCK_64K_SIZE, ERASED_BYTE,
    FLASH_DEVICE_SIZE, MEMORY_MAPPED_FLASH_ADDRESS, MEMORY_PAGE_SIZE, SECTOR_SIZE,
};
use crate::opi::OpiFlashMemory;
use crate::split::{lemma_overwrite_append, page_chunks};
use crate::xfer::{BusWidth, PhaseSize, Transfer};

verus! {

/// Access to the flash chip over the bus while the chip's interface is in
/// single-line SPI mode.
pub struct SpiFlashMemory {
    pub bus: FlashChip,
}

/// Build an SPI-shaped transfer descriptor: 8-bit opcode on one line and,
/// when an address is present, a 32-bit address on one line.
fn spi_transfer(cmd: u8, address: Option<u32>, dwidth: BusWidth, dummy: u8) -> (t: Transfer)
    requires
        dwidth == BusWidth::Off || dwidth == BusWidth::Single,
    ensures
        t.instruction == Some(cmd as u32),
        t.address == address,
        t.dwidth == dwidth,
        t.dummy == dummy,
        t.address is Some <==> t.adwidth != BusWidth::Off,
        crate::xfer::spi_shape(t),
{
    Transfer {
        iwidth: BusWidth::Single,
        instr_size: PhaseSize::Bits8,
        adwidth: if address.is_some() {
            BusWidth::Single
        } else {
            BusWidth::Off
        },
        addr_size: PhaseSize::Bits32,
        dwidth,
        instruction: Some(cmd as u32),
        address,
        dummy,
    }
}

impl SpiFlashMemory {
    /// The controller handle agrees with the chip: the chip's interface is
    /// in SPI mode, no internal operation is pending, and no reset is
    /// half-armed.
    pub open spec fn wf(self) -> bool {
        &&& self.bus.inv()
        &&& !self.bus.opi
        &&& !self.bus.busy()
        &&& !self.bus.reset_armed
    }

    /// The linear contents of the flash array.
    pub open spec fn contents(self) -> Seq<u8> {
        self.bus.mem@
    }

    /// The bus is in memory-mapped (passthrough) mode.
    pub open spec fn mapped(self) -> bool {
        self.bus.mapped
    }

    /// Take exclusive ownership of the bus and bring the chip to a known
    /// state: issue reset-enable then reset-memory and poll until the
    /// write-in-progress flag clears.  The chip powers on in SPI mode, so
    /// the new controller is SPI-tagged.
    pub fn new(bus: FlashChip) -> (r: SpiFlashMemory)
        requires
            bus.inv(),
            !bus.opi,
            !bus.busy(),
            !bus.reset_armed,
            !bus.mapped,
        ensures
            r.wf(),
            !r.mapped(),
            r.contents() == bus.mem@,
            r.bus.sr_store == bus.sr_store,
            r.bus.cr == bus.cr,
            r.bus.cr2_0 == 0,
            !r.bus.wel,
    {
        let mut memory = SpiFlashMemory { bus };
        memory.reset_memory();
        memory
    }

    /// Leave memory-mapped mode and return the bus to explicit command
    /// mode.
    pub fn disable_mm(&mut self)
        requires
            old(self).wf(),
            old(self).mapped(),
        ensures
            final(self).wf(),
            !final(self).mapped(),
            same_stored_state(old(self).bus, final(self).bus),
            final(self).bus.wel == old(self).bus.wel,
    {
        self.bus.disable_mm();
    }

    /// Configure the bus with the fixed SPI fast-read and page-program
    /// templates and switch it into memory-mapped mode.  Afterwards the
    /// flash contents are readable through the mapped window and no
    /// explicit command may be issued until `disable_mm`.
    pub fn enable_mm(&mut self)
        requires
            old(self).wf(),
            !old(self).mapped(),
        ensures
            final(self).wf(),
            final(self).mapped(),
            final(self).bus.mm_readable(),
            final(self).bus.map_write == Some(mm_write_template(false)),
            same_stored_state(old(self).bus, final(self).bus),
            final(self).bus.wel == old(self).bus.wel,
    {
        let read_config = Transfer {
            iwidth: BusWidth::Single,
            instr_size: PhaseSize::Bits8,
            adwidth: BusWidth::Single,
            addr_size: PhaseSize::Bits32,
            dwidth: BusWidth::Single,
            instruction: Some(SPI_FAST_READ_4B as u32),
            address: None,
            dummy: 8,
        };
        let write_config = Transfer {
            iwidth: BusWidth::Single,
            instr_size: PhaseSize::Bits8,
            adwidth: BusWidth::Single,
            addr_size: PhaseSize::Bits32,
            dwidth: BusWidth::Single,
            instruction: Some(SPI_PAGE_PROGRAM_4B as u32),
            address: None,
            dummy: 0,
        };
        proof {
            assert(read_config == mm_read_template(false));
            assert(write_config == mm_write_template(false));
        }
        self.bus.enable_mm(read_config, write_config);
    }

    /// One byte read through the memory-mapped window at the given mapped
    /// address.
    pub fn mm_read_u8(&self, addr: u32) -> (r: u8)
        requires
            self.wf(),
            self.bus.mm_readable(),
            MEMORY_MAPPED_FLASH_ADDRESS <= addr,
            addr - MEMORY_MAPPED_FLASH_ADDRESS < FLASH_DEVICE_SIZE,
        ensures
            r == self.contents()[addr - MEMORY_MAPPED_FLASH_ADDRESS],
    {
        self.bus.mm_read_u8(addr - MEMORY_MAPPED_FLASH_ADDRESS)
    }

    /// One little-endian 32-bit word read through the memory-mapped window
    /// at the given mapped address.
    pub fn mm_read_u32(&self, addr: u32) -> (r: u32)
        requires
            self.wf(),
            self.bus.mm_readable(),
            MEMORY_MAPPED_FLASH_ADDRESS <= addr,
            addr - MEMORY_MAPPED_FLASH_ADDRESS + 4 <= FLASH_DEVICE_SIZE,
        ensures
            r == word_at(self.contents(), addr - MEMORY_MAPPED_FLASH_ADDRESS),
    {
        self.bus.mm_read_u32(addr - MEMORY_MAPPED_FLASH_ADDRESS)
    }

    /// Switch the chip to OPI mode, consuming this controller: the
    /// returned handle owns the same bus, and this SPI-tagged handle can
    /// never be used again.
    pub fn into_octo(self) -> (r: OpiFlashMemory)
        requires
            self.wf(),
            !self.mapped(),
        ensures
            r.wf(),
            !r.mapped(),
            r.contents() == self.contents(),
            r.bus.sr_store == self.bus.sr_store,
            r.bus.cr == self.bus.cr,
            r.bus.cr2_0 == (self.bus.cr2_0 | 0x01),
            !r.bus.wel,
    {
        let mut this = self;
        this.enable_opi_mode();
        OpiFlashMemory { bus: this.bus }
    }

    /// Read configuration register 2, set its OPI-select bit and write it
    /// back; the interface switches to OPI when the write completes.
    fn enable_opi_mode(&mut self)
        requires
            old(self).wf(),
            !old(self).mapped(),
        ensures
            final(self).bus.inv(),
            final(self).bus.opi,
            !final(self).bus.busy(),
            !final(self).bus.reset_armed,
            !final(self).bus.mapped,
            !final(self).bus.wel,
            final(self).bus.mem@ == old(self).bus.mem@,
            final(self).bus.sr_store == old(self).bus.sr_store,
            final(self).bus.cr == old(self).bus.cr,
            final(self).bus.cr2_0 == (old(self).bus.cr2_0 | 0x01),
    {
        let cr2_0 = self.read_cr2(0);
        let value = cr2_0 | 0x01;
        proof {
            assert(value % 2 == 1 && value & 0x01 == 1) by (bit_vector)
                requires
                    value == cr2_0 | 0x01,
            ;
        }
        self.write_cr2(0, value);
    }

    /// Issue one address-less, data-less command.
    fn exec_command(&mut self, cmd: u8)
        requires
            old(self).bus.inv(),
            !old(self).bus.mapped,
            !old(self).bus.opi,
            spec_decode(false, cmd as u32) is Some,
            crate::chip::command_pre(
                old(self).bus,
                spec_decode(false, cmd as u32)->0,
                None,
            ),
        ensures
            final(self).bus.inv(),
            crate::chip::command_step(
                old(self).bus,
                final(self).bus,
                spec_decode(false, cmd as u32)->0,
                None,
            ),
    {
        let transaction = spi_transfer(cmd, None, BusWidth::Off, 0);
        self.bus.execute(&transaction);
    }

    /// Issue reset-enable then reset-memory and poll until the chip is
    /// idle again, leaving it in a known, un-suspended state.  The reset
    /// restores the volatile configuration register 2 to its power-on
    /// default of zero; the flash array contents are untouched.
    pub fn reset_memory(&mut self)
        requires
            old(self).wf(),
            !old(self).mapped(),
        ensures
            final(self).wf(),
            !final(self).mapped(),
            final(self).contents() == old(self).contents(),
            final(self).bus.sr_store == old(self).bus.sr_store,
            final(self).bus.cr == old(self).bus.cr,
            final(self).bus.cr2_0 == 0,
            !final(self).bus.wel,
            status_polls_appended(
                old(self).bus.hist@ + seq![FlashOp::ResetEnable, FlashOp::ResetMemory],
                final(self).bus.hist@,
            ),
    {
        self.exec_command(SPI_RESET_ENABLE);
        self.exec_command(SPI_RESET_MEMORY);
        let ghost issued = self.bus.hist@;
        self.wait_write_finish();
        proof {
            assert(issued =~= old(self).bus.hist@ + seq![
                FlashOp::ResetEnable,
                FlashOp::ResetMemory,
            ]);
        }
    }

    /// Set the chip's write-enable latch, which every mutating command
    /// requires.
    pub fn enable_write(&mut self)
        requires
            old(self).wf(),
            !old(self).mapped(),
        ensures
            final(self).wf(),
            !final(self).mapped(),
            same_stored_state(old(self).bus, final(self).bus),
            fixed_frame(old(self).bus, final(self).bus),
            final(self).bus.wel,
            final(self).bus.last_is_write_enable(),
            final(self).bus.hist@ == old(self).bus.hist@.push(FlashOp::WriteEnable),
    {
        self.exec_command(SPI_WRITE_ENABLE);
    }

    /// Read the chip's 3-byte identification code.
    pub fn read_id(&mut self) -> (r: [u8; 3])
        requires
            old(self).wf(),
            !old(self).mapped(),
        ensures
            final(self).wf(),
            !final(self).mapped(),
            same_stored_state(old(self).bus, final(self).bus),
            final(self).bus.wel == old(self).bus.wel,
            r@ == seq![
                crate::geometry::MACRONIX_ID,
                crate::geometry::DEVICE_MEMORY_TYPE,
                crate::geometry::DEVICE_DENSITY,
            ],
    {
        let transaction = spi_transfer(SPI_READ_ID, None, BusWidth::Single, 0);
        let buffer = self.bus.read(&transaction, 3);
        let r = [buffer[0], buffer[1], buffer[2]];
        proof {
            assert(r@ =~= seq![
                crate::geometry::MACRONIX_ID,
                crate::geometry::DEVICE_MEMORY_TYPE,
                crate::geometry::DEVICE_DENSITY,
            ]);
        }
        r
    }

    /// Fill `buffer` from the flash array starting at `addr`, in one
    /// fast-read transaction.
    pub fn read_memory(&mut self, addr: u32, buffer: &mut Vec<u8>)
        requires
            old(self).wf(),
            !old(self).mapped(),
            addr + old(buffer)@.len() <= FLASH_DEVICE_SIZE,
        ensures
            final(self).wf(),
            !final(self).mapped(),
            same_stored_state(old(self).bus, final(self).bus),
            final(self).bus.wel == old(self).bus.wel,
            final(buffer)@ == old(self).contents().subrange(
                addr as int,
                addr + old(buffer)@.len(),
            ),
    {
        let len = buffer.len();
        let transaction = spi_transfer(SPI_FAST_READ_4B, Some(addr), BusWidth::Single, 8);
        let data = self.bus.read(&transaction, len);
        *buffer = data;
    }

    /// Poll the status register until the write-in-progress flag clears.
    fn wait_write_finish(&mut self)
        requires
            old(self).bus.inv(),
            !old(self).bus.mapped,
            !old(self).bus.opi,
        ensures
            final(self).bus.inv(),
            !final(self).bus.busy(),
            !final(self).bus.reset_armed,
            final(self).bus.opi == (final(self).bus.cr2_0 % 2 == 1),
            same_stored_state(old(self).bus, final(self).bus),
            fixed_frame(old(self).bus, final(self).bus),
            final(self).bus.wel == old(self).bus.wel,
            status_polls_appended(old(self).bus.hist@, final(self).bus.hist@),
    {
        proof {
            assert(old(self).bus.hist@.take(old(self).bus.hist@.len() as int) =~= old(
                self,
            ).bus.hist@);
        }
        loop
            invariant_except_break
                self.bus.inv(),
                !self.bus.mapped,
                !self.bus.opi,
                same_stored_state(old(self).bus, self.bus),
                fixed_frame(old(self).bus, self.bus),
                self.bus.wel == old(self).bus.wel,
                status_polls_appended(old(self).bus.hist@, self.bus.hist@),
            ensures
                self.bus.inv(),
                !self.bus.busy(),
                !self.bus.reset_armed,
                same_stored_state(old(self).bus, self.bus),
                fixed_frame(old(self).bus, self.bus),
                self.bus.wel == old(self).bus.wel,
                status_polls_appended(old(self).bus.hist@, self.bus.hist@),
            decreases self.bus.wip_left,
        {
            let sr = self.read_sr();
            proof {
                assert(self.bus.hist@.take(old(self).bus.hist@.len() as int) =~= old(
                    self,
                ).bus.hist@);
            }
            if sr % 2 == 0 {
                break;
            }
        }
    }

    /// Assert write-enable, issue one erase command with the given
    /// address, and poll to completion.
    fn perform_erase(&mut self, addr: u32, cmd: u8)
        requires
            old(self).wf(),
            !old(self).mapped(),
            addr < FLASH_DEVICE_SIZE,
            spec_decode(false, cmd as u32) == Some(FlashOp::SectorErase) || spec_decode(
                false,
                cmd as u32,
            ) == Some(FlashOp::BlockErase),
        ensures
            final(self).wf(),
            !final(self).mapped(),
            same_registers(old(self).bus, final(self).bus),
            !final(self).bus.wel,
            spec_decode(false, cmd as u32) == Some(FlashOp::SectorErase) ==> final(self).contents() == erase_region(
                old(self).contents(),
                align_down(addr as int, SECTOR_SIZE as int),
                SECTOR_SIZE as int,
            ),
            spec_decode(false, cmd as u32) == Some(FlashOp::BlockErase) ==> final(self).contents() == erase_region(
                old(self).contents(),
                align_down(addr as int, BLOCK_64K_SIZE as int),
                BLOCK_64K_SIZE as int,
            ),
            status_polls_appended(
                old(self).bus.hist@ + seq![
                    FlashOp::WriteEnable,
                    spec_decode(false, cmd as u32)->0,
                ],
                final(self).bus.hist@,
            ),
    {
        let transaction = spi_transfer(cmd, Some(addr), BusWidth::Off, 0);
        self.enable_write();
        self.bus.execute(&transaction);
        let ghost issued = self.bus.hist@;
        self.wait_write_finish();
        proof {
            assert(issued =~= old(self).bus.hist@ + seq![
                FlashOp::WriteEnable,
                spec_decode(false, cmd as u32)->0,
            ]);
        }
    }

    /// Erase the 4 KiB sector containing `addr` (the chip itself aligns
    /// the address down to the sector boundary).
    pub fn erase_sector(&mut self, addr: u32)
        requires
            old(self).wf(),
            !old(self).mapped(),
            addr < FLASH_DEVICE_SIZE,
        ensures
            final(self).wf(),
            !final(self).mapped(),
            same_registers(old(self).bus, final(self).bus),
            !final(self).bus.wel,
            final(self).contents() == erase_region(
                old(self).contents(),
                align_down(addr as int, SECTOR_SIZE as int),
                SECTOR_SIZE as int,
            ),
            status_polls_appended(
                old(self).bus.hist@ + seq![FlashOp::WriteEnable, FlashOp::SectorErase],
                final(self).bus.hist@,
            ),
    {
        self.perform_erase(addr, SPI_SECTOR_ERASE_4B);
    }

    /// Erase the 64 KiB block containing `addr` (the chip itself aligns
    /// the address down to the block boundary).
    pub fn erase_block_64k(&mut self, addr: u32)
        requires
            old(self).wf(),
            !old(self).mapped(),
            addr < FLASH_DEVICE_SIZE,
        ensures
            final(self).wf(),
            !final(self).mapped(),
            same_registers(old(self).bus, final(self).bus),
            !final(self).bus.wel,
            final(self).contents() == erase_region(
                old(self).contents(),
                align_down(addr as int, BLOCK_64K_SIZE as int),
                BLOCK_64K_SIZE as int,
            ),
            status_polls_appended(
                old(self).bus.hist@ + seq![FlashOp::WriteEnable, FlashOp::BlockErase],
                final(self).bus.hist@,
            ),
    {
        self.perform_erase(addr, SPI_BLOCK_ERASE_4B);
    }

    /// Erase the whole chip.
    pub fn erase_chip(&mut self)
        requires
            old(self).wf(),
            !old(self).mapped(),
        ensures
            final(self).wf(),
            !final(self).mapped(),
            same_registers(old(self).bus, final(self).bus),
            !final(self).bus.wel,
            final(self).contents() == erase_region(
                old(self).contents(),
                0,
                FLASH_DEVICE_SIZE as int,
            ),
            status_polls_appended(
                old(self).bus.hist@ + seq![FlashOp::WriteEnable, FlashOp::ChipErase],
                final(self).bus.hist@,
            ),
    {
        self.enable_write();
        self.exec_command(SPI_CHIP_ERASE);
        let ghost issued = self.bus.hist@;
        self.wait_write_finish();
        proof {
            assert(issued =~= old(self).bus.hist@ + seq![
                FlashOp::WriteEnable,
                FlashOp::ChipErase,
            ]);
        }
    }

    /// Program `len` bytes at `addr` in one page-program command.  The
    /// write must not cross a page boundary: the chip would silently wrap
    /// within the page, so a crossing request is a programmer error and is
    /// excluded by precondition.
    fn write_page(&mut self, addr: u32, buffer: &[u8], len: usize)
        requires
            old(self).wf(),
            !old(self).mapped(),
            len == buffer@.len(),
            1 <= len,
            (addr as int) % (MEMORY_PAGE_SIZE as int) + len <= MEMORY_PAGE_SIZE as int,
            addr + len <= FLASH_DEVICE_SIZE,
            region_erased(old(self).contents(), addr as int, len as int),
        ensures
            final(self).wf(),
            !final(self).mapped(),
            same_registers(old(self).bus, final(self).bus),
            fixed_frame(old(self).bus, final(self).bus),
            !final(self).bus.wel,
            final(self).contents() == overwrite(old(self).contents(), addr as int, buffer@),
            status_polls_appended(
                old(self).bus.hist@ + seq![FlashOp::WriteEnable, FlashOp::PageProgram],
                final(self).bus.hist@,
            ),
    {
        let transaction = spi_transfer(SPI_PAGE_PROGRAM_4B, Some(addr), BusWidth::Single, 0);
        self.enable_write();
        self.bus.write(&transaction, buffer);
        let ghost issued = self.bus.hist@;
        self.wait_write_finish();
        proof {
            assert(issued =~= old(self).bus.hist@ + seq![
                FlashOp::WriteEnable,
                FlashOp::PageProgram,
            ]);
        }
    }

    /// Program an arbitrary-length buffer at an arbitrary address,
    /// splitting it into page-program commands on page boundaries.  The
    /// target range must be erased: the chip can only clear bits when
    /// programming, so this is what makes the written data read back
    /// exactly (the usual flow erases before writing).
    pub fn write_memory(&mut self, addr: u32, buffer: &[u8])
        requires
            old(self).wf(),
            !old(self).mapped(),
            addr + buffer@.len() <= FLASH_DEVICE_SIZE,
            region_erased(old(self).contents(), addr as int, buffer@.len() as int),
        ensures
            final(self).wf(),
            !final(self).mapped(),
            same_registers(old(self).bus, final(self).bus),
            fixed_frame(old(self).bus, final(self).bus),
            final(self).contents() == overwrite(old(self).contents(), addr as int, buffer@),
            buffer@.len() > 0 ==> !final(self).bus.wel,
            buffer@.len() == 0 ==> final(self).bus.wel == old(self).bus.wel,
    {
        let mut left: usize = buffer.len();
        let mut place: u32 = addr;
        let mut chunk_start: usize = 0;
        // Ghost record of the (address, length) pairs this loop issues;
        // the closing assertion checks that the loop emits exactly the
        // chunk sequence of the page-splitting specification.
        let ghost mut emitted: Seq<(int, int)> = Seq::empty();
        proof {
            assert(emitted + page_chunks(place as int, left as int) =~= page_chunks(
                addr as int,
                buffer@.len() as int,
            ));
        }

        while left > 0
            invariant
                self.wf(),
                !self.bus.mapped,
                chunk_start + left == buffer@.len(),
                place == addr + chunk_start,
                addr + buffer@.len() <= FLASH_DEVICE_SIZE,
                same_registers(old(self).bus, self.bus),
                fixed_frame(old(self).bus, self.bus),
                self.contents() == overwrite(
                    old(self).contents(),
                    addr as int,
                    buffer@.take(chunk_start as int),
                ),
                emitted + page_chunks(place as int, left as int) == page_chunks(
                    addr as int,
                    buffer@.len() as int,
                ),
                region_erased(old(self).contents(), addr as int, buffer@.len() as int),
                chunk_start > 0 ==> !self.bus.wel,
                chunk_start == 0 ==> self.bus.wel == old(self).bus.wel,
            decreases left,
        {
            let max_chunk_size = MEMORY_PAGE_SIZE - (place % (MEMORY_PAGE_SIZE as u32)) as usize;
            let chunk_size = if max_chunk_size < left {
                max_chunk_size
            } else {
                left
            };
            let chunk = vstd::slice::slice_subrange(buffer, chunk_start, chunk_start + chunk_size);
            proof {
                // The tail of the target range is still untouched, so the
                // chunk about to be programmed is erased.
                assert forall|i: int|
                    place <= i < place + chunk_size && 0 <= i < self.contents().len() implies self.contents()[i]
                    == ERASED_BYTE by {
                    assert(self.contents()[i] == old(self).contents()[i]);
                }
            }
            self.write_page(place, chunk, chunk_size);
            proof {
                lemma_overwrite_append(
                    old(self).contents(),
                    addr as int,
                    buffer@.take(chunk_start as int),
                    buffer@.subrange(chunk_start as int, chunk_start + chunk_size),
                );
                assert(buffer@.take(chunk_start as int) + buffer@.subrange(
                    chunk_start as int,
                    chunk_start + chunk_size,
                ) =~= buffer@.take(chunk_start + chunk_size));
                let prev = emitted;
                let pc_here = page_chunks(place as int, left as int);
                assert(pc_here == seq![(place as int, chunk_size as int)] + page_chunks(
                    place + chunk_size,
                    left - chunk_size,
                ));
                emitted = emitted + seq![(place as int, chunk_size as int)];
                assert(emitted + page_chunks(place + chunk_size, left - chunk_size) =~= prev
                    + pc_here);
            }
            place = place + chunk_size as u32;
            left = left - chunk_size;
            chunk_start = chunk_start + chunk_size;
        }
        proof {
            assert(buffer@.take(chunk_start as int) =~= buffer@);
            // The emitted chunks are exactly the specified page split.
            assert(emitted + page_chunks(place as int, 0) =~= emitted);
            assert(emitted == page_chunks(addr as int, buffer@.len() as int));
        }
    }

    /// Issue one address-less single-byte register read.
    fn read_register(&mut self, cmd: u8) -> (r: u8)
        requires
            old(self).bus.inv(),
            !old(self).bus.mapped,
            !old(self).bus.opi,
            spec_decode(false, cmd as u32) == Some(FlashOp::ReadStatus) || spec_decode(
                false,
                cmd as u32,
            ) == Some(FlashOp::ReadConfig),
            spec_decode(false, cmd as u32) == Some(FlashOp::ReadConfig) ==> !old(self).bus.busy(),
        ensures
            final(self).bus.inv(),
            crate::chip::read_step(
                old(self).bus,
                final(self).bus,
                spec_decode(false, cmd as u32)->0,
            ),
            spec_decode(false, cmd as u32) == Some(FlashOp::ReadStatus) ==> r == final(self).bus.spec_status_byte(),
            spec_decode(false, cmd as u32) == Some(FlashOp::ReadConfig) ==> r == old(self).bus.cr,
    {
        let transaction = spi_transfer(cmd, None, BusWidth::Single, 0);
        let buffer = self.bus.read(&transaction, 1);
        buffer[0]
    }

    /// Read the status register.  Bit 0 is the write-in-progress flag,
    /// bit 1 the write-enable latch.
    pub fn read_sr(&mut self) -> (r: u8)
        requires
            old(self).bus.inv(),
            !old(self).bus.mapped,
            !old(self).bus.opi,
        ensures
            final(self).bus.inv(),
            crate::chip::read_step(old(self).bus, final(self).bus, FlashOp::ReadStatus),
            r == final(self).bus.spec_status_byte(),
            r % 2 == (if final(self).bus.busy() {
                1u8
            } else {
                0u8
            }),
            r / 2 % 2 == (if final(self).bus.wel {
                1u8
            } else {
                0u8
            }),
    {
        let r = self.read_register(SPI_READ_STATUS);
        proof {
            lemma_status_wip_bit(self.bus);
        }
        r
    }

    /// Read the configuration register.
    pub fn read_cr(&mut self) -> (r: u8)
        requires
            old(self).wf(),
            !old(self).mapped(),
        ensures
            final(self).wf(),
            !final(self).mapped(),
            same_stored_state(old(self).bus, final(self).bus),
            final(self).bus.wel == old(self).bus.wel,
            r == old(self).bus.cr,
    {
        self.read_register(SPI_READ_CONFIG)
    }

    /// Assert write-enable, write the status and configuration registers
    /// in one 2-byte command, and poll to completion.
    pub fn write_sr_cr(&mut self, sr: u8, cr: u8)
        requires
            old(self).wf(),
            !old(self).mapped(),
        ensures
            final(self).wf(),
            !final(self).mapped(),
            final(self).contents() == old(self).contents(),
            final(self).bus.sr_store == sr,
            final(self).bus.cr == cr,
            final(self).bus.cr2_0 == old(self).bus.cr2_0,
            !final(self).bus.wel,
            status_polls_appended(
                old(self).bus.hist@ + seq![FlashOp::WriteEnable, FlashOp::WriteStatusConfig],
                final(self).bus.hist@,
            ),
    {
        let mut buffer: Vec<u8> = Vec::new();
        buffer.push(sr);
        buffer.push(cr);
        let transaction = spi_transfer(SPI_WRITE_STATUS_CONFIG, None, BusWidth::Single, 0);
        self.enable_write();
        self.bus.write(&transaction, buffer.as_slice());
        let ghost issued = self.bus.hist@;
        self.wait_write_finish();
        proof {
            assert(issued =~= old(self).bus.hist@ + seq![
                FlashOp::WriteEnable,
                FlashOp::WriteStatusConfig,
            ]);
        }
    }

    /// Read configuration register 2 at the given register address (only
    /// address 0, the OPI-select register, exists in this driver's view).
    pub fn read_cr2(&mut self, address: u32) -> (r: u8)
        requires
            old(self).wf(),
            !old(self).mapped(),
            address == 0,
        ensures
            final(self).wf(),
            !final(self).mapped(),
            same_stored_state(old(self).bus, final(self).bus),
            final(self).bus.wel == old(self).bus.wel,
            r == old(self).bus.cr2_0,
    {
        let transaction = spi_transfer(SPI_READ_CONFIG2, Some(address), BusWidth::Single, 0);
        let buffer = self.bus.read(&transaction, 1);
        buffer[0]
    }

    /// Assert write-enable, write configuration register 2 and poll to
    /// completion.  Bit 0 of the written value selects OPI mode: the
    /// interface mode the chip ends up in follows the written value, so
    /// this handle stays usable only if bit 0 is left clear (mode
    /// switching is what `into_octo` is for).
    pub fn write_cr2(&mut self, address: u32, value: u8)
        requires
            old(self).wf(),
            !old(self).mapped(),
            address == 0,
        ensures
            final(self).bus.inv(),
            !final(self).bus.busy(),
            !final(self).bus.reset_armed,
            !final(self).bus.mapped,
            !final(self).bus.wel,
            final(self).contents() == old(self).contents(),
            final(self).bus.sr_store == old(self).bus.sr_store,
            final(self).bus.cr == old(self).bus.cr,
            final(self).bus.cr2_0 == value,
            final(self).bus.opi == (value % 2 == 1),
            value % 2 == 0 ==> final(self).wf(),
            status_polls_appended(
                old(self).bus.hist@ + seq![FlashOp::WriteEnable, FlashOp::WriteConfig2],
                final(self).bus.hist@,
            ),
    {
        let mut buffer: Vec<u8> = Vec::new();
        buffer.push(value);
        let transaction = spi_transfer(SPI_WRITE_CONFIG2, Some(address), BusWidth::Single, 0);
        self.enable_write();
        self.bus.write(&transaction, buffer.as_slice());
        let ghost issued = self.bus.hist@;
        self.wait_write_finish();
        proof {
            assert(issued =~= old(self).bus.hist@ + seq![
                FlashOp::WriteEnable,
                FlashOp::WriteConfig2,
            ]);
        }
    }
}

} // verus!
