//! The page-splitting algorithm behind bulk writes, and its correctness.
//!
//! A single page-program command must not cross a page boundary: the chip
//! would silently wrap within the page instead of spilling into the next
//! one.  A bulk write is therefore split into chunks, each of which stays
//! inside one page.  `page_chunks` is the exact sequence of
//! (address, length) pairs the splitting algorithm emits, and the lemmas
//! below state its correctness: the chunks are contiguous and exactly cover
//! the written range, each fits in its page, the chunk count matches the
//! alignment-based ceiling formula, and programming the chunks one command
//! at a time changes memory exactly as a byte-at-a-time reference write
//! does.

use vstd::arithmetic::div_mod::{
    lemma_fundamental_div_mod,
    lemma_fundamental_div_mod_converse_div,
    lemma_fundamental_div_mod_converse_mod,
};
use vstd::prelude::*;

use crate::geometry::{overwrite, MEMORY_PAGE_SIZE};

verus! {

/// Number of bytes from `addr` to the end of the page containing it.
pub open spec fn page_room(addr: int) -> int {
    MEMORY_PAGE_SIZE - addr % (MEMORY_PAGE_SIZE as int)
}

/// The (address, length) pairs emitted by the page-splitting algorithm for
/// a write of `len` bytes starting at `addr`: each chunk takes as much of
/// the current page as the remaining data fills, never crossing into the
/// next page.
pub open spec fn page_chunks(addr: int, len: int) -> Seq<(int, int)>
    decreases len,
{
    if len <= 0 {
        Seq::empty()
    } else {
        let room = page_room(addr);
        let chunk = if room <= len {
            room
        } else {
            len
        };
        seq![(addr, chunk)] + page_chunks(addr + chunk, len - chunk)
    }
}

/// One chunk is nonempty and, together with its offset within its page,
/// stays inside the page.
pub open spec fn chunk_fits(c: (int, int)) -> bool {
    1 <= c.1 && c.0 % (MEMORY_PAGE_SIZE as int) + c.1 <= MEMORY_PAGE_SIZE as int
}

/// The chunks are contiguous and exactly cover `[addr, end)`: each begins
/// where the previous one stopped, the first begins at `addr`, and the last
/// stops at `end`.
pub open spec fn chunks_contiguous(cs: Seq<(int, int)>, addr: int, end: int) -> bool
    decreases cs.len(),
{
    if cs.len() == 0 {
        addr == end
    } else {
        cs[0].0 == addr && chunks_contiguous(cs.skip(1), addr + cs[0].1, end)
    }
}

/// Memory after programming the chunks in order, each consuming the front
/// of the remaining data.
pub open spec fn apply_chunks(mem: Seq<u8>, data: Seq<u8>, cs: Seq<(int, int)>) -> Seq<u8>
    decreases cs.len(),
{
    if cs.len() == 0 {
        mem
    } else {
        apply_chunks(overwrite(mem, cs[0].0, data.take(cs[0].1)), data.skip(cs[0].1), cs.skip(1))
    }
}

/// The reference slow write: one byte at a time.
pub open spec fn write_bytes(mem: Seq<u8>, addr: int, data: Seq<u8>) -> Seq<u8>
    decreases data.len(),
{
    if data.len() == 0 {
        mem
    } else {
        write_bytes(mem.update(addr, data[0]), addr + 1, data.drop_first())
    }
}

/// The room left in a page is between 1 and the page size, and walking to
/// the end of the page lands on a page boundary.
pub proof fn lemma_page_room(addr: int)
    ensures
        1 <= page_room(addr) <= MEMORY_PAGE_SIZE as int,
        (addr + page_room(addr)) % (MEMORY_PAGE_SIZE as int) == 0,
{
    let p = MEMORY_PAGE_SIZE as int;
    lemma_fundamental_div_mod(addr, p);
    assert(addr + page_room(addr) == (addr / p + 1) * p) by {
        assert((addr / p + 1) * p == (addr / p) * p + p) by (nonlinear_arith);
    }
    lemma_fundamental_div_mod_converse_mod(addr + page_room(addr), p, addr / p + 1, 0);
}

/// Every chunk emitted for a write is nonempty and stays inside its page.
pub proof fn lemma_page_chunks_fit(addr: int, len: int)
    ensures
        forall|k: int|
            0 <= k < page_chunks(addr, len).len() ==> chunk_fits(
                #[trigger] page_chunks(addr, len)[k],
            ),
    decreases len,
{
    if len > 0 {
        let room = page_room(addr);
        let chunk = if room <= len {
            room
        } else {
            len
        };
        lemma_page_room(addr);
        lemma_page_chunks_fit(addr + chunk, len - chunk);
        assert forall|k: int| 0 <= k < page_chunks(addr, len).len() implies chunk_fits(
            #[trigger] page_chunks(addr, len)[k],
        ) by {
            if k > 0 {
                assert(page_chunks(addr, len)[k] == page_chunks(addr + chunk, len - chunk)[k - 1]);
            }
        }
    }
}

/// The chunks emitted for a write of `len` bytes at `addr` are contiguous
/// and exactly cover `[addr, addr + len)`.
pub proof fn lemma_page_chunks_contiguous(addr: int, len: int)
    requires
        len >= 0,
    ensures
        chunks_contiguous(page_chunks(addr, len), addr, addr + len),
    decreases len,
{
    if len > 0 {
        let room = page_room(addr);
        let chunk = if room <= len {
            room
        } else {
            len
        };
        lemma_page_room(addr);
        lemma_page_chunks_contiguous(addr + chunk, len - chunk);
        assert(page_chunks(addr, len).skip(1) =~= page_chunks(addr + chunk, len - chunk));
    }
}

/// The number of chunks is the alignment-based ceiling: the written range
/// covers that many (partial) pages.
pub proof fn lemma_page_chunks_count(addr: int, len: int)
    requires
        len >= 0,
    ensures
        page_chunks(addr, len).len() == if len == 0 {
            0int
        } else {
            (addr % (MEMORY_PAGE_SIZE as int) + len + (MEMORY_PAGE_SIZE as int) - 1)
                / (MEMORY_PAGE_SIZE as int)
        },
    decreases len,
{
    let p = MEMORY_PAGE_SIZE as int;
    if len > 0 {
        let r = addr % p;
        let room = page_room(addr);
        let chunk = if room <= len {
            room
        } else {
            len
        };
        lemma_page_room(addr);
        lemma_page_chunks_count(addr + chunk, len - chunk);
        if room <= len {
            if len == room {
                assert(page_chunks(addr, len).len() == 1);
                lemma_fundamental_div_mod_converse_div(r + len + p - 1, p, 1, r + len - 1);
            } else {
                let x = len + r - 1;
                lemma_fundamental_div_mod(x, p);
                assert(r + len + p - 1 == (x / p + 1) * p + x % p) by {
                    assert((x / p + 1) * p == (x / p) * p + p) by (nonlinear_arith);
                }
                lemma_fundamental_div_mod_converse_div(r + len + p - 1, p, x / p + 1, x % p);
            }
        } else {
            assert(page_chunks(addr, len).len() == 1);
            lemma_fundamental_div_mod_converse_div(r + len + p - 1, p, 1, r + len - 1);
        }
    }
}

/// Writing one byte at a time is the same as one overwrite of the whole
/// range.
pub proof fn lemma_write_bytes_is_overwrite(mem: Seq<u8>, addr: int, data: Seq<u8>)
    requires
        0 <= addr,
        addr + data.len() <= mem.len(),
    ensures
        write_bytes(mem, addr, data) == overwrite(mem, addr, data),
    decreases data.len(),
{
    if data.len() == 0 {
        assert(overwrite(mem, addr, data) =~= mem);
    } else {
        lemma_write_bytes_is_overwrite(mem.update(addr, data[0]), addr + 1, data.drop_first());
        assert(overwrite(mem.update(addr, data[0]), addr + 1, data.drop_first()) =~= overwrite(
            mem,
            addr,
            data,
        ));
    }
}

/// Two adjacent overwrites compose into one overwrite of the concatenated
/// data.
pub proof fn lemma_overwrite_append(mem: Seq<u8>, addr: int, d1: Seq<u8>, d2: Seq<u8>)
    ensures
        overwrite(overwrite(mem, addr, d1), addr + d1.len(), d2) == overwrite(mem, addr, d1 + d2),
{
    assert(overwrite(overwrite(mem, addr, d1), addr + d1.len(), d2) =~= overwrite(
        mem,
        addr,
        d1 + d2,
    ));
}

/// Programming the emitted chunks one page-program command at a time yields
/// one overwrite of the whole buffer.
pub proof fn lemma_apply_page_chunks(mem: Seq<u8>, addr: int, data: Seq<u8>)
    ensures
        apply_chunks(mem, data, page_chunks(addr, data.len() as int)) == overwrite(
            mem,
            addr,
            data,
        ),
    decreases data.len(),
{
    let len = data.len() as int;
    if len == 0 {
        assert(overwrite(mem, addr, data) =~= mem);
    } else {
        let room = page_room(addr);
        let chunk = if room <= len {
            room
        } else {
            len
        };
        lemma_page_room(addr);
        let head = overwrite(mem, addr, data.take(chunk));
        assert(page_chunks(addr, len).skip(1) =~= page_chunks(addr + chunk, len - chunk));
        lemma_apply_page_chunks(head, addr + chunk, data.skip(chunk));
        lemma_overwrite_append(mem, addr, data.take(chunk), data.skip(chunk));
        assert(data.take(chunk) + data.skip(chunk) =~= data);
    }
}

/// Page-split correctness in one statement: the chunks are contiguous and
/// exactly cover the written range, each fits in its page, their count is
/// the alignment-based ceiling, and applying them matches the
/// byte-at-a-time reference write.
pub proof fn lemma_page_split_correct(mem: Seq<u8>, addr: int, data: Seq<u8>)
    requires
        0 <= addr,
        addr + data.len() <= mem.len(),
    ensures
        chunks_contiguous(page_chunks(addr, data.len() as int), addr, addr + data.len()),
        forall|k: int|
            0 <= k < page_chunks(addr, data.len() as int).len() ==> chunk_fits(
                #[trigger] page_chunks(addr, data.len() as int)[k],
            ),
        page_chunks(addr, data.len() as int).len() == if data.len() == 0 {
            0int
        } else {
            (addr % (MEMORY_PAGE_SIZE as int) + data.len() + (MEMORY_PAGE_SIZE as int) - 1)
                / (MEMORY_PAGE_SIZE as int)
        },
        apply_chunks(mem, data, page_chunks(addr, data.len() as int)) == write_bytes(
            mem,
            addr,
            data,
        ),
{
    lemma_page_chunks_contiguous(addr, data.len() as int);
    lemma_page_chunks_fit(addr, data.len() as int);
    lemma_page_chunks_count(addr, data.len() as int);
    lemma_apply_page_chunks(mem, addr, data);
    lemma_write_bytes_is_overwrite(mem, addr, data);
}

} // verus!
