//! Model of the bus transport and the flash chip behind it.
//!
//! `FlashChip` stands for the combination of the synchronous bus and the
//! chip it talks to.  Its methods are the transactions the bus can carry
//! out; their contracts say which descriptors the hardware accepts in each
//! electrical mode and what every transaction does to the chip's state.
//! The model also serves as the transport's test double: its preconditions
//! refuse any mutating opcode that is not immediately preceded by a
//! write-enable assertion, any command issued while the chip is still busy
//! (other than a status poll), and any descriptor whose electrical shape
//! does not match the mode the chip is actually in.

use vstd::prelude::*;

use crate::commands::{
    mutating, required_dummy, spec_decode, decode, FlashOp, OPI_OCTA_READ, OPI_PAGE_PROGRAM_4B,
    SPI_FAST_READ_4B, SPI_PAGE_PROGRAM_4B,
};
use crate::geometry::{
    align_down, erase_region, overwrite, region_erased, word_at, BLOCK_64K_SIZE, DEVICE_DENSITY,
    DEVICE_MEMORY_TYPE, ERASED_BYTE, FLASH_DEVICE_SIZE, MACRONIX_ID, MEMORY_PAGE_SIZE,
    SECTOR_SIZE,
};
use crate::xfer::{mode_shape, BusWidth, PhaseSize, Transfer};

verus! {

/// The fixed read template installed for memory-mapped mode: the mode's
/// array-read opcode, full address width, and the mode's dummy-cycle count.
/// The address field is left empty; it is filled per access.
pub open spec fn mm_read_template(opi: bool) -> Transfer {
    Transfer {
        iwidth: if opi {
            BusWidth::Octal
        } else {
            BusWidth::Single
        },
        instr_size: if opi {
            PhaseSize::Bits16
        } else {
            PhaseSize::Bits8
        },
        adwidth: if opi {
            BusWidth::Octal
        } else {
            BusWidth::Single
        },
        addr_size: PhaseSize::Bits32,
        dwidth: if opi {
            BusWidth::Octal
        } else {
            BusWidth::Single
        },
        instruction: if opi {
            Some(OPI_OCTA_READ as u32)
        } else {
            Some(SPI_FAST_READ_4B as u32)
        },
        address: None,
        dummy: if opi {
            20
        } else {
            8
        },
    }
}

/// The fixed write template installed for memory-mapped mode: the mode's
/// page-program opcode with no dummy cycles.
pub open spec fn mm_write_template(opi: bool) -> Transfer {
    Transfer {
        iwidth: if opi {
            BusWidth::Octal
        } else {
            BusWidth::Single
        },
        instr_size: if opi {
            PhaseSize::Bits16
        } else {
            PhaseSize::Bits8
        },
        adwidth: if opi {
            BusWidth::Octal
        } else {
            BusWidth::Single
        },
        addr_size: PhaseSize::Bits32,
        dwidth: if opi {
            BusWidth::Octal
        } else {
            BusWidth::Single
        },
        instruction: if opi {
            Some(OPI_PAGE_PROGRAM_4B as u32)
        } else {
            Some(SPI_PAGE_PROGRAM_4B as u32)
        },
        address: None,
        dummy: 0,
    }
}

/// The bus and the flash chip behind it.
///
/// `wip_left` models the time an internal program/erase operation still
/// needs: it is set to `op_time` when a mutating command is accepted and
/// counts down one step per status poll; the write-in-progress flag reads
/// as set while it is nonzero.  `opi` is the electrical mode the chip's
/// interface is actually in; a change written to configuration register 2
/// takes effect when the operation completes (when the polled
/// write-in-progress flag clears).  A soft reset restores the volatile
/// configuration register 2 to its power-on default of zero, so the
/// interface likewise drops back to SPI mode when the reset completes.
pub struct FlashChip {
    pub mem: Vec<u8>,
    pub wip_left: u32,
    pub op_time: u32,
    pub wel: bool,
    pub opi: bool,
    pub reset_armed: bool,
    pub sr_store: u8,
    pub cr: u8,
    pub cr2_0: u8,
    pub mapped: bool,
    pub map_read: Option<Transfer>,
    pub map_write: Option<Transfer>,
    pub hist: Ghost<Seq<FlashOp>>,
}

impl FlashChip {
    /// An internal operation is still in progress: the write-in-progress
    /// flag reads as set.
    pub open spec fn busy(self) -> bool {
        self.wip_left > 0
    }

    /// The most recent transaction was a write-enable assertion.
    pub open spec fn last_is_write_enable(self) -> bool {
        self.hist@.len() > 0 && self.hist@.last() == FlashOp::WriteEnable
    }

    /// The status register byte: bit 0 is write-in-progress, bit 1 is the
    /// write-enable latch, the upper bits hold what was last written.
    pub open spec fn spec_status_byte(self) -> u8 {
        ((self.sr_store / 4) * 4 + (if self.wel {
            2int
        } else {
            0int
        }) + (if self.busy() {
            1int
        } else {
            0int
        })) as u8
    }

    /// Well-formedness of the model.
    pub open spec fn inv(self) -> bool {
        &&& self.mem@.len() == FLASH_DEVICE_SIZE as int
        &&& self.op_time >= 1
        &&& (!self.busy() ==> self.opi == (self.cr2_0 % 2 == 1))
        &&& (self.mapped ==> self.map_read is Some && self.map_write is Some)
        &&& (self.hist@.len() > 0 && mutating(self.hist@.last()) ==> self.busy())
        &&& write_enable_disciplined(self.hist@)
        &&& polled_after_mutation(self.hist@)
    }

    /// The memory-mapped window is usable for reads: passthrough mode is
    /// on and the installed read template is the correct one for the mode
    /// the chip is in.
    pub open spec fn mm_readable(self) -> bool {
        &&& self.mapped
        &&& self.map_read == Some(mm_read_template(self.opi))
        &&& !self.busy()
    }
}

/// Every mutating operation in the transaction history was immediately
/// preceded by a write-enable assertion.
#[verifier::opaque]
pub open spec fn write_enable_disciplined(hist: Seq<FlashOp>) -> bool {
    forall|i: int|
        0 <= i < hist.len() && #[trigger] mutating(hist[i]) ==> i >= 1 && hist[i - 1]
            == FlashOp::WriteEnable
}

/// Every mutating operation in the transaction history was immediately
/// followed by a status-register poll (unless it is the most recent
/// transaction, whose polling is still owed).
#[verifier::opaque]
pub open spec fn polled_after_mutation(hist: Seq<FlashOp>) -> bool {
    forall|i: int|
        0 <= i < hist.len() - 1 && #[trigger] mutating(hist[i]) ==> hist[i + 1]
            == FlashOp::ReadStatus
}

/// `post` is `pre` with nothing but status-register polls appended: the
/// shape a transaction history takes while an operation is polled to
/// completion.
pub open spec fn status_polls_appended(pre: Seq<FlashOp>, post: Seq<FlashOp>) -> bool {
    &&& pre.len() <= post.len()
    &&& post.take(pre.len() as int) == pre
    &&& forall|i: int| pre.len() <= i < post.len() ==> post[i] == FlashOp::ReadStatus
}

/// Write-enable discipline: in every reachable transaction history, each
/// mutating opcode (program, erase, register write) is immediately preceded
/// by a write-enable assertion and immediately followed by status polling.
/// That no further command is issued before the polled write-in-progress
/// flag clears is enforced by the transaction preconditions themselves:
/// while the chip is busy they accept nothing but a status poll.
pub proof fn lemma_write_enable_discipline(c: FlashChip)
    requires
        c.inv(),
    ensures
        write_enable_disciplined(c.hist@),
        polled_after_mutation(c.hist@),
{
}

/// Appending one transaction keeps the history disciplined, provided a
/// mutating transaction comes right after a write-enable and nothing but a
/// status poll follows a still-unpolled mutating transaction.
#[verifier::rlimit(50)]
proof fn lemma_hist_push_preserves(hist: Seq<FlashOp>, op: FlashOp)
    requires
        write_enable_disciplined(hist),
        polled_after_mutation(hist),
        mutating(op) ==> hist.len() > 0 && hist.last() == FlashOp::WriteEnable,
        hist.len() > 0 && mutating(hist.last()) ==> op == FlashOp::ReadStatus,
    ensures
        write_enable_disciplined(hist.push(op)),
        polled_after_mutation(hist.push(op)),
{
    reveal(write_enable_disciplined);
    reveal(polled_after_mutation);
    let h2 = hist.push(op);
    assert forall|i: int| 0 <= i < h2.len() && #[trigger] mutating(h2[i]) implies i >= 1 && h2[i
        - 1] == FlashOp::WriteEnable by {
        if i < hist.len() {
            assert(h2[i] == hist[i]);
            assert(h2[i - 1] == hist[i - 1]);
        } else {
            assert(h2[i] == op);
            assert(h2[i - 1] == hist[i - 1]);
        }
    }
    assert forall|i: int| 0 <= i < h2.len() - 1 && #[trigger] mutating(h2[i]) implies h2[i + 1]
        == FlashOp::ReadStatus by {
        assert(h2[i] == hist[i]);
        if i < hist.len() - 1 {
            assert(h2[i + 1] == hist[i + 1]);
        } else {
            assert(h2[i + 1] == op);
        }
    }
}

/// Bit 0 of the status byte is exactly the write-in-progress flag, and
/// bit 1 exactly the write-enable latch.
pub proof fn lemma_status_wip_bit(c: FlashChip)
    ensures
        c.spec_status_byte() % 2 == (if c.busy() {
            1u8
        } else {
            0u8
        }),
        c.spec_status_byte() / 2 % 2 == (if c.wel {
            1u8
        } else {
            0u8
        }),
{
    let k = c.sr_store / 4;
    let w: int = if c.wel {
        2
    } else {
        0
    };
    let p: int = if c.busy() {
        1
    } else {
        0
    };
    assert(k * 4 + w + p <= 255 && (k * 4 + w + p) % 2 == p && (k * 4 + w + p) / 2 % 2 == w / 2)
        by (nonlinear_arith)
        requires
            0 <= k <= 63,
            w == 0 || w == 2,
            p == 0 || p == 1,
    ;
}

/// The status, configuration and configuration-2 registers are unchanged.
pub open spec fn same_registers(pre: FlashChip, post: FlashChip) -> bool {
    &&& post.sr_store == pre.sr_store
    &&& post.cr == pre.cr
    &&& post.cr2_0 == pre.cr2_0
}

/// The flash array and the persistent registers are unchanged.
pub open spec fn same_stored_state(pre: FlashChip, post: FlashChip) -> bool {
    &&& post.mem@ == pre.mem@
    &&& same_registers(pre, post)
}

/// Fields no transaction of the command path ever changes.
pub open spec fn fixed_frame(pre: FlashChip, post: FlashChip) -> bool {
    &&& post.op_time == pre.op_time
    &&& post.mapped == pre.mapped
    &&& post.map_read == pre.map_read
    &&& post.map_write == pre.map_write
}

/// The state-dependent conditions under which the chip accepts `op` as a
/// command-only transaction carrying `address`.
pub open spec fn command_pre(c: FlashChip, op: FlashOp, address: Option<u32>) -> bool {
    match op {
        FlashOp::WriteEnable => address is None && !c.busy(),
        FlashOp::ResetEnable => address is None && !c.busy(),
        FlashOp::ResetMemory => address is None && !c.busy() && c.reset_armed,
        FlashOp::ChipErase => address is None && !c.busy() && c.wel && c.last_is_write_enable(),
        FlashOp::SectorErase => address is Some && address->0 < FLASH_DEVICE_SIZE && !c.busy()
            && c.wel && c.last_is_write_enable(),
        FlashOp::BlockErase => address is Some && address->0 < FLASH_DEVICE_SIZE && !c.busy()
            && c.wel && c.last_is_write_enable(),
        _ => false,
    }
}

/// What a command-only transaction does to the chip's state.
pub open spec fn command_step(pre: FlashChip, post: FlashChip, op: FlashOp, address: Option<
    u32,
>) -> bool {
    &&& fixed_frame(pre, post)
    &&& post.opi == pre.opi
    &&& post.sr_store == pre.sr_store
    &&& post.cr == pre.cr
    &&& post.cr2_0 == (if op == FlashOp::ResetMemory {
        0u8
    } else {
        pre.cr2_0
    })
    &&& post.hist@ == pre.hist@.push(op)
    &&& match op {
        FlashOp::WriteEnable => {
            &&& post.mem@ == pre.mem@
            &&& post.wel
            &&& post.wip_left == 0
            &&& !post.reset_armed
        },
        FlashOp::ResetEnable => {
            &&& post.mem@ == pre.mem@
            &&& post.wel == pre.wel
            &&& post.wip_left == 0
            &&& post.reset_armed
        },
        FlashOp::ResetMemory => {
            &&& post.mem@ == pre.mem@
            &&& !post.wel
            &&& post.wip_left == pre.op_time
            &&& !post.reset_armed
        },
        FlashOp::ChipErase => {
            &&& post.mem@ == erase_region(pre.mem@, 0, FLASH_DEVICE_SIZE as int)
            &&& !post.wel
            &&& post.wip_left == pre.op_time
            &&& !post.reset_armed
        },
        FlashOp::SectorErase => {
            &&& post.mem@ == erase_region(
                pre.mem@,
                align_down(address->0 as int, SECTOR_SIZE as int),
                SECTOR_SIZE as int,
            )
            &&& !post.wel
            &&& post.wip_left == pre.op_time
            &&& !post.reset_armed
        },
        FlashOp::BlockErase => {
            &&& post.mem@ == erase_region(
                pre.mem@,
                align_down(address->0 as int, BLOCK_64K_SIZE as int),
                BLOCK_64K_SIZE as int,
            )
            &&& !post.wel
            &&& post.wip_left == pre.op_time
            &&& !post.reset_armed
        },
        _ => false,
    }
}

/// The state-dependent conditions under which the chip accepts `op` as a
/// read transaction of `len` data bytes.
pub open spec fn read_pre(
    c: FlashChip,
    op: FlashOp,
    address: Option<u32>,
    dummy: u8,
    len: int,
) -> bool {
    &&& dummy == required_dummy(c.opi, op)
    &&& match op {
        FlashOp::FastRead => address is Some && address->0 + len <= FLASH_DEVICE_SIZE
            && !c.busy(),
        FlashOp::ReadId => len == 3 && (if c.opi {
            address == Some(0u32)
        } else {
            address is None
        }) && !c.busy(),
        FlashOp::ReadStatus => len == 1 && (if c.opi {
            address == Some(0u32)
        } else {
            address is None
        }),
        FlashOp::ReadConfig => len == 1 && (if c.opi {
            address == Some(1u32)
        } else {
            address is None
        }) && !c.busy(),
        FlashOp::ReadConfig2 => len == 1 && address == Some(0u32) && !c.busy(),
        _ => false,
    }
}

/// The data a read transaction returns.  A status poll reports the state
/// the chip is in once the poll's own step of internal progress has
/// passed, so a poll whose answer shows the write-in-progress flag clear
/// is the one at which the operation completed.
pub open spec fn read_data(
    pre: FlashChip,
    post: FlashChip,
    op: FlashOp,
    address: Option<u32>,
    len: int,
) -> Seq<u8> {
    match op {
        FlashOp::FastRead => pre.mem@.subrange(address->0 as int, address->0 + len),
        FlashOp::ReadId => seq![MACRONIX_ID, DEVICE_MEMORY_TYPE, DEVICE_DENSITY],
        FlashOp::ReadStatus => seq![post.spec_status_byte()],
        FlashOp::ReadConfig => seq![pre.cr],
        FlashOp::ReadConfig2 => seq![pre.cr2_0],
        _ => Seq::empty(),
    }
}

/// What a read transaction does to the chip's state.  A status poll lets
/// one step of the chip's internal operation pass; when that completes, a
/// pending electrical-mode change written to configuration register 2
/// takes effect.  Other reads change nothing.
pub open spec fn read_step(pre: FlashChip, post: FlashChip, op: FlashOp) -> bool {
    &&& fixed_frame(pre, post)
    &&& post.mem@ == pre.mem@
    &&& post.wel == pre.wel
    &&& post.sr_store == pre.sr_store
    &&& post.cr == pre.cr
    &&& post.cr2_0 == pre.cr2_0
    &&& !post.reset_armed
    &&& post.hist@ == pre.hist@.push(op)
    &&& if op == FlashOp::ReadStatus {
        &&& post.wip_left == if pre.wip_left > 0 {
            (pre.wip_left - 1) as u32
        } else {
            0u32
        }
        &&& post.opi == if post.wip_left == 0 {
            pre.cr2_0 % 2 == 1
        } else {
            pre.opi
        }
    } else {
        post.wip_left == pre.wip_left && post.opi == pre.opi
    }
}

/// The state-dependent conditions under which the chip accepts `op` as a
/// write transaction carrying `data`.  A page program may only target an
/// erased range: programming can only clear bits on the real chip, so the
/// replace semantics promised by `write_step` hold exactly there, and the
/// model admits nothing else.
pub open spec fn write_pre(c: FlashChip, op: FlashOp, address: Option<u32>, data: Seq<u8>) -> bool {
    &&& !c.busy()
    &&& c.wel
    &&& c.last_is_write_enable()
    &&& match op {
        FlashOp::PageProgram => {
            &&& address is Some
            &&& data.len() >= 1
            &&& (address->0 as int) % (MEMORY_PAGE_SIZE as int) + data.len()
                <= MEMORY_PAGE_SIZE as int
            &&& address->0 + data.len() <= FLASH_DEVICE_SIZE
            &&& region_erased(c.mem@, address->0 as int, data.len() as int)
        },
        FlashOp::WriteStatusConfig => data.len() == 2 && (if c.opi {
            address == Some(0u32)
        } else {
            address is None
        }),
        FlashOp::WriteConfig2 => data.len() == 1 && address == Some(0u32),
        _ => false,
    }
}

/// What a write transaction does to the chip's state.
pub open spec fn write_step(
    pre: FlashChip,
    post: FlashChip,
    op: FlashOp,
    address: Option<u32>,
    data: Seq<u8>,
) -> bool {
    &&& fixed_frame(pre, post)
    &&& post.opi == pre.opi
    &&& !post.wel
    &&& !post.reset_armed
    &&& post.wip_left == pre.op_time
    &&& post.hist@ == pre.hist@.push(op)
    &&& match op {
        FlashOp::PageProgram => {
            &&& post.mem@ == overwrite(pre.mem@, address->0 as int, data)
            &&& post.sr_store == pre.sr_store
            &&& post.cr == pre.cr
            &&& post.cr2_0 == pre.cr2_0
        },
        FlashOp::WriteStatusConfig => {
            &&& post.mem@ == pre.mem@
            &&& post.sr_store == data[0]
            &&& post.cr == data[1]
            &&& post.cr2_0 == pre.cr2_0
        },
        FlashOp::WriteConfig2 => {
            &&& post.mem@ == pre.mem@
            &&& post.sr_store == pre.sr_store
            &&& post.cr == pre.cr
            &&& post.cr2_0 == data[0]
        },
        _ => false,
    }
}

impl FlashChip {
    /// A chip fresh out of power-on: erased array, SPI mode, nothing
    /// latched, command mode.  `op_time` is the number of status polls an
    /// internal program/erase operation takes to complete.
    pub fn power_on(op_time: u32) -> (c: FlashChip)
        requires
            op_time >= 1,
        ensures
            c.inv(),
            c.mem@ == Seq::new(FLASH_DEVICE_SIZE as nat, |i: int| ERASED_BYTE),
            c.op_time == op_time,
            !c.busy(),
            !c.wel,
            !c.opi,
            !c.reset_armed,
            c.sr_store == 0,
            c.cr == 0,
            c.cr2_0 == 0,
            !c.mapped,
            c.hist@ == Seq::<FlashOp>::empty(),
    {
        let mut mem: Vec<u8> = Vec::new();
        let mut i: u32 = 0;
        while i < FLASH_DEVICE_SIZE
            invariant
                i <= FLASH_DEVICE_SIZE,
                mem@.len() == i,
                forall|j: int| 0 <= j < i ==> mem@[j] == ERASED_BYTE,
            decreases FLASH_DEVICE_SIZE - i,
        {
            mem.push(ERASED_BYTE);
            i = i + 1;
        }
        let c = FlashChip {
            mem,
            wip_left: 0,
            op_time,
            wel: false,
            opi: false,
            reset_armed: false,
            sr_store: 0,
            cr: 0,
            cr2_0: 0,
            mapped: false,
            map_read: None,
            map_write: None,
            hist: Ghost(Seq::empty()),
        };
        proof {
            assert(c.mem@ =~= Seq::new(FLASH_DEVICE_SIZE as nat, |i: int| ERASED_BYTE));
            reveal(write_enable_disciplined);
            reveal(polled_after_mutation);
        }
        c
    }

    /// Set every byte of `[start, start + len)` to the erased value.
    fn erase_range(&mut self, start: u32, len: u32)
        requires
            start + len <= old(self).mem@.len(),
            start + len <= FLASH_DEVICE_SIZE,
        ensures
            final(self).mem@ == erase_region(old(self).mem@, start as int, len as int),
            final(self).wip_left == old(self).wip_left,
            final(self).op_time == old(self).op_time,
            final(self).wel == old(self).wel,
            final(self).opi == old(self).opi,
            final(self).reset_armed == old(self).reset_armed,
            final(self).sr_store == old(self).sr_store,
            final(self).cr == old(self).cr,
            final(self).cr2_0 == old(self).cr2_0,
            final(self).mapped == old(self).mapped,
            final(self).map_read == old(self).map_read,
            final(self).map_write == old(self).map_write,
            final(self).hist == old(self).hist,
    {
        let mut i: u32 = 0;
        while i < len
            invariant
                i <= len,
                start + len <= self.mem@.len(),
                start + len <= FLASH_DEVICE_SIZE,
                self.mem@ == erase_region(old(self).mem@, start as int, i as int),
                self.wip_left == old(self).wip_left,
                self.op_time == old(self).op_time,
                self.wel == old(self).wel,
                self.opi == old(self).opi,
                self.reset_armed == old(self).reset_armed,
                self.sr_store == old(self).sr_store,
                self.cr == old(self).cr,
                self.cr2_0 == old(self).cr2_0,
                self.mapped == old(self).mapped,
                self.map_read == old(self).map_read,
                self.map_write == old(self).map_write,
                self.hist == old(self).hist,
            decreases len - i,
        {
            self.mem[start as usize + i as usize] = ERASED_BYTE;
            proof {
                assert(self.mem@ =~= erase_region(old(self).mem@, start as int, i + 1));
            }
            i = i + 1;
        }
        proof {
            assert(erase_region(old(self).mem@, start as int, len as int) =~= self.mem@);
        }
    }

    /// Copy `data` over the array starting at `start`.
    fn write_range(&mut self, start: u32, data: &[u8])
        requires
            start + data@.len() <= old(self).mem@.len(),
            start + data@.len() <= FLASH_DEVICE_SIZE,
        ensures
            final(self).mem@ == overwrite(old(self).mem@, start as int, data@),
            final(self).wip_left == old(self).wip_left,
            final(self).op_time == old(self).op_time,
            final(self).wel == old(self).wel,
            final(self).opi == old(self).opi,
            final(self).reset_armed == old(self).reset_armed,
            final(self).sr_store == old(self).sr_store,
            final(self).cr == old(self).cr,
            final(self).cr2_0 == old(self).cr2_0,
            final(self).mapped == old(self).mapped,
            final(self).map_read == old(self).map_read,
            final(self).map_write == old(self).map_write,
            final(self).hist == old(self).hist,
    {
        let mut i: usize = 0;
        while i < data.len()
            invariant
                i <= data@.len(),
                start + data@.len() <= self.mem@.len(),
                start + data@.len() <= FLASH_DEVICE_SIZE,
                self.mem@ == overwrite(old(self).mem@, start as int, data@.take(i as int)),
                self.wip_left == old(self).wip_left,
                self.op_time == old(self).op_time,
                self.wel == old(self).wel,
                self.opi == old(self).opi,
                self.reset_armed == old(self).reset_armed,
                self.sr_store == old(self).sr_store,
                self.cr == old(self).cr,
                self.cr2_0 == old(self).cr2_0,
                self.mapped == old(self).mapped,
                self.map_read == old(self).map_read,
                self.map_write == old(self).map_write,
                self.hist == old(self).hist,
            decreases data@.len() - i,
        {
            let b = data[i];
            self.mem[start as usize + i] = b;
            proof {
                assert(self.mem@ =~= overwrite(
                    old(self).mem@,
                    start as int,
                    data@.take(i + 1),
                ));
            }
            i = i + 1;
        }
        proof {
            assert(data@.take(data@.len() as int) =~= data@);
        }
    }

    /// Carry out a command-only transaction (no data phase).
    pub fn execute(&mut self, t: &Transfer)
        requires
            old(self).inv(),
            !old(self).mapped,
            t.instruction is Some,
            t.address is Some <==> t.adwidth != BusWidth::Off,
            t.dwidth == BusWidth::Off,
            t.dummy == 0,
            mode_shape(*t, old(self).opi),
            spec_decode(old(self).opi, t.instruction->0) is Some,
            command_pre(*old(self), spec_decode(old(self).opi, t.instruction->0)->0, t.address),
        ensures
            final(self).inv(),
            command_step(
                *old(self),
                *final(self),
                spec_decode(old(self).opi, t.instruction->0)->0,
                t.address,
            ),
    {
        let instr = t.instruction.unwrap();
        let op = decode(self.opi, instr).unwrap();
        match op {
            FlashOp::WriteEnable => {
                self.wel = true;
                self.reset_armed = false;
            },
            FlashOp::ResetEnable => {
                self.reset_armed = true;
            },
            FlashOp::ResetMemory => {
                self.wel = false;
                self.reset_armed = false;
                self.cr2_0 = 0;
                self.wip_left = self.op_time;
            },
            FlashOp::ChipErase => {
                self.erase_range(0, FLASH_DEVICE_SIZE);
                self.wel = false;
                self.reset_armed = false;
                self.wip_left = self.op_time;
            },
            FlashOp::SectorErase => {
                let a = t.address.unwrap();
                let base = a - a % SECTOR_SIZE;
                self.erase_range(base, SECTOR_SIZE);
                self.wel = false;
                self.reset_armed = false;
                self.wip_left = self.op_time;
            },
            FlashOp::BlockErase => {
                let a = t.address.unwrap();
                let base = a - a % BLOCK_64K_SIZE;
                self.erase_range(base, BLOCK_64K_SIZE);
                self.wel = false;
                self.reset_armed = false;
                self.wip_left = self.op_time;
            },
            _ => {
                proof {
                    assert(false);
                }
            },
        }
        proof {
            lemma_hist_push_preserves(old(self).hist@, op);
        }
        self.hist = Ghost(self.hist@.push(op));
    }

    /// Carry out a read transaction of `len` data bytes.
    pub fn read(&mut self, t: &Transfer, len: usize) -> (out: Vec<u8>)
        requires
            old(self).inv(),
            !old(self).mapped,
            t.instruction is Some,
            t.address is Some <==> t.adwidth != BusWidth::Off,
            t.dwidth == (if old(self).opi {
                BusWidth::Octal
            } else {
                BusWidth::Single
            }),
            mode_shape(*t, old(self).opi),
            spec_decode(old(self).opi, t.instruction->0) is Some,
            read_pre(
                *old(self),
                spec_decode(old(self).opi, t.instruction->0)->0,
                t.address,
                t.dummy,
                len as int,
            ),
        ensures
            final(self).inv(),
            read_step(*old(self), *final(self), spec_decode(old(self).opi, t.instruction->0)->0),
            out@ == read_data(
                *old(self),
                *final(self),
                spec_decode(old(self).opi, t.instruction->0)->0,
                t.address,
                len as int,
            ),
    {
        let instr = t.instruction.unwrap();
        let op = decode(self.opi, instr).unwrap();
        let mut out: Vec<u8> = Vec::new();
        match op {
            FlashOp::FastRead => {
                let a = t.address.unwrap();
                let mut i: usize = 0;
                while i < len
                    invariant
                        i <= len,
                        a + len <= FLASH_DEVICE_SIZE,
                        a + len <= self.mem@.len(),
                        out@ == self.mem@.subrange(a as int, a + i),
                    decreases len - i,
                {
                    let b = self.mem[a as usize + i];
                    out.push(b);
                    proof {
                        assert(out@ =~= self.mem@.subrange(a as int, a + i + 1));
                    }
                    i = i + 1;
                }
            },
            FlashOp::ReadId => {
                out.push(MACRONIX_ID);
                out.push(DEVICE_MEMORY_TYPE);
                out.push(DEVICE_DENSITY);
                proof {
                    assert(out@ =~= seq![MACRONIX_ID, DEVICE_MEMORY_TYPE, DEVICE_DENSITY]);
                }
            },
            FlashOp::ReadStatus => {
                if self.wip_left > 0 {
                    self.wip_left = self.wip_left - 1;
                    if self.wip_left == 0 {
                        self.opi = self.cr2_0 % 2 == 1;
                    }
                }
                let high = self.sr_store / 4 * 4;
                let b = high + (if self.wel {
                    2
                } else {
                    0
                }) + (if self.wip_left > 0 {
                    1
                } else {
                    0
                });
                out.push(b);
                proof {
                    assert(out@ =~= seq![self.spec_status_byte()]);
                }
            },
            FlashOp::ReadConfig => {
                out.push(self.cr);
                proof {
                    assert(out@ =~= seq![old(self).cr]);
                }
            },
            FlashOp::ReadConfig2 => {
                out.push(self.cr2_0);
                proof {
                    assert(out@ =~= seq![old(self).cr2_0]);
                }
            },
            _ => {
                proof {
                    assert(false);
                }
            },
        }
        self.reset_armed = false;
        proof {
            lemma_hist_push_preserves(old(self).hist@, op);
        }
        self.hist = Ghost(self.hist@.push(op));
        out
    }

    /// Carry out a write transaction carrying `data`.
    pub fn write(&mut self, t: &Transfer, data: &[u8])
        requires
            old(self).inv(),
            !old(self).mapped,
            t.instruction is Some,
            t.address is Some <==> t.adwidth != BusWidth::Off,
            t.dwidth == (if old(self).opi {
                BusWidth::Octal
            } else {
                BusWidth::Single
            }),
            t.dummy == 0,
            mode_shape(*t, old(self).opi),
            spec_decode(old(self).opi, t.instruction->0) is Some,
            write_pre(
                *old(self),
                spec_decode(old(self).opi, t.instruction->0)->0,
                t.address,
                data@,
            ),
        ensures
            final(self).inv(),
            write_step(
                *old(self),
                *final(self),
                spec_decode(old(self).opi, t.instruction->0)->0,
                t.address,
                data@,
            ),
    {
        let instr = t.instruction.unwrap();
        let op = decode(self.opi, instr).unwrap();
        match op {
            FlashOp::PageProgram => {
                let a = t.address.unwrap();
                self.write_range(a, data);
            },
            FlashOp::WriteStatusConfig => {
                self.sr_store = data[0];
                self.cr = data[1];
            },
            FlashOp::WriteConfig2 => {
                self.cr2_0 = data[0];
            },
            _ => {
                proof {
                    assert(false);
                }
            },
        }
        self.wel = false;
        self.reset_armed = false;
        self.wip_left = self.op_time;
        proof {
            lemma_hist_push_preserves(old(self).hist@, op);
        }
        self.hist = Ghost(self.hist@.push(op));
    }

    /// Switch the bus into passthrough (memory-mapped) mode with the given
    /// read and write templates.
    pub fn enable_mm(&mut self, read_t: Transfer, write_t: Transfer)
        requires
            old(self).inv(),
            !old(self).mapped,
            !old(self).busy(),
        ensures
            final(self).inv(),
            final(self).mapped,
            final(self).map_read == Some(read_t),
            final(self).map_write == Some(write_t),
            final(self).mem@ == old(self).mem@,
            final(self).wip_left == old(self).wip_left,
            final(self).op_time == old(self).op_time,
            final(self).wel == old(self).wel,
            final(self).opi == old(self).opi,
            final(self).reset_armed == old(self).reset_armed,
            final(self).sr_store == old(self).sr_store,
            final(self).cr == old(self).cr,
            final(self).cr2_0 == old(self).cr2_0,
            final(self).hist == old(self).hist,
    {
        self.mapped = true;
        self.map_read = Some(read_t);
        self.map_write = Some(write_t);
    }

    /// Switch the bus back into explicit command mode.
    pub fn disable_mm(&mut self)
        requires
            old(self).inv(),
            old(self).mapped,
        ensures
            final(self).inv(),
            !final(self).mapped,
            final(self).mem@ == old(self).mem@,
            final(self).wip_left == old(self).wip_left,
            final(self).op_time == old(self).op_time,
            final(self).wel == old(self).wel,
            final(self).opi == old(self).opi,
            final(self).reset_armed == old(self).reset_armed,
            final(self).sr_store == old(self).sr_store,
            final(self).cr == old(self).cr,
            final(self).cr2_0 == old(self).cr2_0,
            final(self).hist == old(self).hist,
    {
        self.mapped = false;
        self.map_read = None;
        self.map_write = None;
    }

    /// One byte read through the memory-mapped window, at `offset` from
    /// the start of the flash array.
    pub fn mm_read_u8(&self, offset: u32) -> (r: u8)
        requires
            self.inv(),
            self.mm_readable(),
            offset < FLASH_DEVICE_SIZE,
        ensures
            r == self.mem@[offset as int],
    {
        self.mem[offset as usize]
    }

    /// One little-endian 32-bit word read through the memory-mapped
    /// window, at `offset` from the start of the flash array.
    pub fn mm_read_u32(&self, offset: u32) -> (r: u32)
        requires
            self.inv(),
            self.mm_readable(),
            offset + 4 <= FLASH_DEVICE_SIZE,
        ensures
            r == word_at(self.mem@, offset as int),
    {
        let b0 = self.mem[offset as usize] as u32;
        let b1 = self.mem[offset as usize + 1] as u32;
        let b2 = self.mem[offset as usize + 2] as u32;
        let b3 = self.mem[offset as usize + 3] as u32;
        b0 + b1 * 0x100 + b2 * 0x1_0000 + b3 * 0x100_0000
    }
}

} // verus!
