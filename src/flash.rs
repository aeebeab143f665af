use vstd::prelude::*;

use crate::flash_registers::{
    halfword_erased, high_byte, low_byte, page_erased, BusOp, FlashRegisters, ERASE_SIZE,
    ERASE_VALUE, FLASH_BASE, KEY1, KEY2,
};

verus! {

/// Number of bytes that one write programs; programming goes by half-words.
pub const WRITE_SIZE: usize = 2;

/// Size of the flash array.
pub const FLASH_SIZE: u32 = 0x1_0000;

/// A failure that the flash controller reported.
#[derive(Clone, Copy, PartialEq, Eq, Debug)]
pub enum Error {
    /// An erase ended without the end-of-operation flag.
    Prog,
    /// The programming-error flag was set: the controller saw an invalid sequence.
    SequenceError,
    /// The write-protection flag was set.
    Protected,
}

/// A contiguous part of flash with one geometry.
#[derive(Clone, Copy, PartialEq, Eq, Debug)]
pub struct FlashRegion {
    pub base: u32,
    pub size: u32,
    pub erase_size: u32,
    pub write_size: u32,
    pub erase_value: u8,
}

/// One erasable sector, by start address and length.
#[derive(Clone, Copy, PartialEq, Eq, Debug)]
pub struct FlashSector {
    pub start: u32,
    pub size: u32,
}

/// The one region of the flash array.
pub open spec fn bank1_region() -> FlashRegion {
    FlashRegion {
        base: FLASH_BASE,
        size: FLASH_SIZE,
        erase_size: ERASE_SIZE,
        write_size: WRITE_SIZE as u32,
        erase_value: ERASE_VALUE,
    }
}

/// The regions of the flash array.
pub fn get_flash_regions() -> (r: Vec<FlashRegion>)
    ensures
        r@ == seq![bank1_region()],
{
    let region = FlashRegion {
        base: FLASH_BASE,
        size: FLASH_SIZE,
        erase_size: ERASE_SIZE,
        write_size: WRITE_SIZE as u32,
        erase_value: ERASE_VALUE,
    };
    let mut regions: Vec<FlashRegion> = Vec::new();
    regions.push(region);
    regions
}

/// The outcome that the status flags give once the controller is idle.
pub open spec fn status_result(wrprt: bool, pgerr: bool) -> Result<(), Error> {
    if wrprt {
        Err(Error::Protected)
    } else if pgerr {
        Err(Error::SequenceError)
    } else {
        Ok(())
    }
}

/// Relies on atomic_polyfill::fence: a sequentially consistent fence, so that the
/// stores before it reach the controller before the accesses after it.
#[verifier::external_body]
fn full_fence() {
    atomic_polyfill::fence(atomic_polyfill::Ordering::SeqCst);
}

/// Issues a full memory fence and records it on the controller's bus.
fn fence(flash: &mut FlashRegisters)
    ensures
        final(flash).bus@ == old(flash).bus@.push(BusOp::Fence),
        *final(flash) == (FlashRegisters { bus: final(flash).bus, ..*old(flash) }),
{
    full_fence();
    flash.fence_issued();
}

/// `n` reads of the status register.
pub open spec fn polls(n: int) -> Seq<BusOp> {
    Seq::new(n as nat, |i: int| BusOp::Poll)
}

/// Locks the controller.
pub fn lock(flash: &mut FlashRegisters)
    ensures
        *final(flash) == (FlashRegisters { lock: true, ..*old(flash) }),
{
    flash.set_lock();
}

/// Unlocks the controller by writing KEY1, then KEY2, to the key register; an
/// unlocked one stays unlocked.
pub fn unlock(flash: &mut FlashRegisters)
    ensures
        final(flash).bus@ == old(flash).bus@ + seq![BusOp::Key(KEY1), BusOp::Key(KEY2)],
        *final(flash) == (FlashRegisters { lock: false, key_step: 0, bus: final(flash).bus, ..*old(flash) }),
{
    flash.write_keyr(KEY1);
    flash.write_keyr(KEY2);
    assert(flash.bus@ =~= old(flash).bus@ + seq![BusOp::Key(KEY1), BusOp::Key(KEY2)]);
}

/// Sets program-enable.
pub fn begin_write(flash: &mut FlashRegisters)
    ensures
        *final(flash) == if old(flash).lock {
            *old(flash)
        } else {
            FlashRegisters { pg: true, per: false, ..*old(flash) }
        },
{
    assert(WRITE_SIZE % 2 == 0);
    flash.write_cr_pg(true);
}

/// Clears program-enable.
pub fn end_write(flash: &mut FlashRegisters)
    ensures
        *final(flash) == if old(flash).lock {
            *old(flash)
        } else {
            FlashRegisters { pg: false, per: false, ..*old(flash) }
        },
{
    flash.write_cr_pg(false);
}

/// Polls the status register until the controller is idle, then classifies
/// the flags.
fn blocking_wait_ready(flash: &mut FlashRegisters) -> (r: Result<(), Error>)
    ensures
        final(flash).bus@ == old(flash).bus@ + polls(old(flash).busy + 1),
        *final(flash) == (FlashRegisters { busy: 0, bus: final(flash).bus, ..*old(flash) }),
        r == status_result(old(flash).wrprt, old(flash).pgerr),
{
    loop
        invariant
            flash.busy <= old(flash).busy,
            flash.bus@ =~= old(flash).bus@ + polls(old(flash).busy - flash.busy),
            *flash == (FlashRegisters { busy: flash.busy, bus: flash.bus, ..*old(flash) }),
        decreases flash.busy,
    {
        let ghost b0 = flash.bus@;
        let ghost n0 = old(flash).busy - flash.busy;
        let sr = flash.read_sr();
        assert(flash.bus@ =~= old(flash).bus@ + polls(n0 + 1));
        if !sr.bsy {
            if sr.wrprt {
                return Err(Error::Protected);
            }
            if sr.pgerr {
                return Err(Error::SequenceError);
            }
            return Ok(());
        }
    }
}

/// The half-word whose little-endian bytes are `lo` and `hi`.
pub open spec fn le_halfword(lo: u8, hi: u8) -> u16 {
    ((lo as u16) | ((hi as u16) << 8u16)) as u16
}

/// The half-word whose little-endian bytes are `lo` and `hi`.
fn halfword_from_le_bytes(lo: u8, hi: u8) -> (r: u16)
    ensures
        r == le_halfword(lo, hi),
        low_byte(r) == lo,
        high_byte(r) == hi,
{
    let r: u16 = (lo as u16) | ((hi as u16) << 8u16);
    assert(((((lo as u16) | ((hi as u16) << 8u16)) & 0xFFu16) as u8) == lo
        && ((((lo as u16) | ((hi as u16) << 8u16)) >> 8u16) as u8) == hi) by (bit_vector);
    r
}

/// Offset of the half-word that holds offset `k`, for a block at `off`.
pub open spec fn chunk_start(off: int, k: int) -> int {
    off + 2 * ((k - off) / 2)
}

/// `mem` after programming `buf` at offset `off`: each half-word that was erased
/// takes its bytes from `buf`; the others keep theirs.
pub open spec fn programmed(mem: Seq<u8>, off: int, buf: Seq<u8>) -> Seq<u8> {
    Seq::new(
        mem.len(),
        |k: int|
            if off <= k < off + buf.len() && halfword_erased(mem, chunk_start(off, k)) {
                buf[k - off]
            } else {
                mem[k]
            },
    )
}

/// Whether one of the first `n` half-words at offset `off` is not erased.
pub open spec fn some_unerased(mem: Seq<u8>, off: int, n: int) -> bool {
    exists|c: int| 0 <= c < n && !#[trigger] halfword_erased(mem, off + 2 * c)
}

/// Whether one of the first `n` half-words at offset `off` is erased.
pub open spec fn some_erased(mem: Seq<u8>, off: int, n: int) -> bool {
    exists|c: int| 0 <= c < n && #[trigger] halfword_erased(mem, off + 2 * c)
}

/// The bus accesses that programming the first `n` half-words of `buf` at
/// `start` makes: each half-word store, in address order, followed by a fence.
pub open spec fn write_log(start: u32, buf: Seq<u8>, n: int) -> Seq<BusOp> {
    Seq::new(
        (2 * n) as nat,
        |j: int|
            if j % 2 == 0 {
                BusOp::Store((start + j) as u32, le_halfword(buf[j], buf[j + 1]))
            } else {
                BusOp::Fence
            },
    )
}

/// The controller after a block of `len` bytes was programmed at offset `off`
/// with program-enable set, before the status is polled.
pub open spec fn after_program(f: FlashRegisters, off: int, buf: Seq<u8>) -> FlashRegisters {
    if f.protected {
        FlashRegisters { wrprt: true, busy: f.latency, ..f }
    } else {
        FlashRegisters {
            pgerr: f.pgerr || some_unerased(f.mem@, off, buf.len() as int / 2),
            eop: f.eop || (f.signals_eop && some_erased(f.mem@, off, buf.len() as int / 2)),
            busy: f.latency,
            ..f
        }
    }
}

/// Programs one block at `start_address` and waits for the controller to finish.
///
/// Each half-word goes to the array in address order, with a full fence after
/// each store. The result is `Protected` if the write-protection flag is set at
/// the end, else `SequenceError` if the programming-error flag is, else `Ok`.
pub fn blocking_write(flash: &mut FlashRegisters, start_address: u32, buf: &[u8; WRITE_SIZE]) -> (r: Result<(), Error>)
    requires
        old(flash).wf(),
        old(flash).pg,
        !old(flash).lock,
        FLASH_BASE <= start_address,
        (start_address - FLASH_BASE) % (WRITE_SIZE as int) == 0,
        start_address - FLASH_BASE + WRITE_SIZE <= old(flash).mem@.len(),
    ensures
        final(flash).mem@ == if old(flash).protected {
            old(flash).mem@
        } else {
            programmed(old(flash).mem@, start_address - FLASH_BASE, buf@)
        },
        final(flash).bus@ == old(flash).bus@ + write_log(start_address, buf@, WRITE_SIZE as int / 2)
            + polls(old(flash).latency + 1),
        *final(flash) == (FlashRegisters {
            busy: 0,
            mem: final(flash).mem,
            bus: final(flash).bus,
            ..after_program(*old(flash), start_address - FLASH_BASE, buf@)
        }),
        r == status_result(final(flash).wrprt, final(flash).pgerr),
{
    let ghost off: int = start_address - FLASH_BASE;
    let ghost f0 = *flash;
    let mut address: u32 = start_address;
    let mut i: usize = 0;
    while i < WRITE_SIZE
        invariant
            i <= WRITE_SIZE,
            i % 2 == 0,
            address == start_address + i,
            f0 == *old(flash),
            f0.wf(),
            f0.pg,
            !f0.lock,
            FLASH_BASE <= start_address,
            off == start_address - FLASH_BASE,
            off + WRITE_SIZE <= f0.mem@.len(),
            buf@.len() == WRITE_SIZE,
            flash.mem@.len() == f0.mem@.len(),
            forall|k: int| 0 <= k < f0.mem@.len() ==> #[trigger] flash.mem@[k] == if off <= k < off + i
                && !f0.protected && halfword_erased(f0.mem@, chunk_start(off, k)) {
                buf@[k - off]
            } else {
                f0.mem@[k]
            },
            flash.bus@ == f0.bus@ + write_log(start_address, buf@, i as int / 2),
            i == 0 ==> *flash == (FlashRegisters { bus: flash.bus, ..f0 }),
            i > 0 ==> *flash == (FlashRegisters {
                mem: flash.mem,
                bus: flash.bus,
                ..after_program(f0, off, buf@.subrange(0, i as int))
            }),
        decreases WRITE_SIZE - i,
    {
        let value = halfword_from_le_bytes(buf[i], buf[i + 1]);
        let ghost before = *flash;
        proof {
            assert(chunk_start(off, off + i) == off + i);
            assert(chunk_start(off, off + i + 1) == off + i);
            assert(before.mem@[off + i] == f0.mem@[off + i]);
            assert(before.mem@[off + i + 1] == f0.mem@[off + i + 1]);
        }
        flash.program_halfword(address, value);
        proof {
            let c: int = i as int / 2;
            assert(off + 2 * c == off + i);
            let cur = buf@.subrange(0, i as int);
            let next = buf@.subrange(0, i + 2);
            assert(next.len() / 2 == c + 1);
            assert(cur.len() / 2 == c);
            if halfword_erased(f0.mem@, off + 2 * c) {
                assert(some_erased(f0.mem@, off, c + 1));
                assert(some_unerased(f0.mem@, off, c + 1) == some_unerased(f0.mem@, off, c));
            } else {
                assert(some_unerased(f0.mem@, off, c + 1));
                assert(some_erased(f0.mem@, off, c + 1) == some_erased(f0.mem@, off, c));
            }
            assert forall|k: int| 0 <= k < f0.mem@.len() implies #[trigger] flash.mem@[k] == if off <= k
                < off + i + 2 && !f0.protected && halfword_erased(f0.mem@, chunk_start(off, k)) {
                buf@[k - off]
            } else {
                f0.mem@[k]
            } by {
                if off + i <= k < off + i + 2 {
                    assert(chunk_start(off, k) == off + i);
                    if !f0.protected && halfword_erased(f0.mem@, off + i) {
                        assert(flash.mem@ == before.mem@.update(off + i, buf@[i as int]).update(
                            off + i + 1,
                            buf@[i + 1],
                        ));
                    }
                }
            }
        }
        let ghost b1 = flash.bus@;
        fence(flash);
        proof {
            assert(b1 == f0.bus@ + write_log(start_address, buf@, i as int / 2) + seq![
                BusOp::Store(address, le_halfword(buf@[i as int], buf@[i + 1])),
            ]);
            assert(flash.bus@ =~= f0.bus@ + write_log(start_address, buf@, (i + 2) as int / 2));
        }
        address = address + 2;
        i = i + 2;
    }
    assert(buf@.subrange(0, WRITE_SIZE as int) =~= buf@);
    assert(flash.mem@ =~= if f0.protected {
        f0.mem@
    } else {
        programmed(f0.mem@, off, buf@)
    });
    let r = blocking_wait_ready(flash);
    assert(flash.bus@ =~= f0.bus@ + write_log(start_address, buf@, WRITE_SIZE as int / 2) + polls(
        f0.latency + 1,
    ));
    r
}

/// Clears every sticky flag of the status register that is set: the programming
/// error, the write protection and the end of operation.
pub fn clear_all_err(flash: &mut FlashRegisters)
    ensures
        final(flash).busy == if old(flash).busy > 0 { (old(flash).busy - 1) as u32 } else { 0u32 },
        final(flash).bus@ == old(flash).bus@.push(BusOp::Poll),
        *final(flash) == (FlashRegisters {
            pgerr: false,
            wrprt: false,
            eop: false,
            busy: final(flash).busy,
            bus: final(flash).bus,
            ..*old(flash)
        }),
{
    let sr = flash.read_sr();
    flash.write_sr(sr.pgerr, sr.wrprt, sr.eop);
}

/// Whether an erase started on `f` finds the end-of-operation flag set.
pub open spec fn erase_eop(f: FlashRegisters) -> bool {
    f.eop || (!f.lock && !f.protected && f.signals_eop)
}

/// What erasing a page of `f` reports.
pub open spec fn erase_result(f: FlashRegisters) -> Result<(), Error> {
    if !erase_eop(f) {
        Err(Error::Prog)
    } else {
        status_result(f.wrprt || (!f.lock && f.protected), f.pgerr)
    }
}

/// Erases the page at `sector.start` and waits for the controller to finish.
///
/// Without the end-of-operation flag at the end the result is `Prog`; with it,
/// the flag is acknowledged and the result is that of the status flags. Either
/// way erase-enable is cleared, then every sticky flag, before returning.
pub fn blocking_erase_sector(flash: &mut FlashRegisters, sector: &FlashSector) -> (r: Result<(), Error>)
    requires
        old(flash).wf(),
        FLASH_BASE <= sector.start,
        (sector.start - FLASH_BASE) % (ERASE_SIZE as int) == 0,
        sector.start - FLASH_BASE + ERASE_SIZE <= old(flash).mem@.len(),
    ensures
        r == erase_result(*old(flash)),
        final(flash).mem@ == if !old(flash).lock && !old(flash).protected {
            page_erased(old(flash).mem@, sector.start - FLASH_BASE)
        } else {
            old(flash).mem@
        },
        *final(flash) == (FlashRegisters {
            per: if old(flash).lock { old(flash).per } else { false },
            far: sector.start,
            busy: 0,
            pgerr: false,
            wrprt: false,
            eop: false,
            mem: final(flash).mem,
            bus: final(flash).bus,
            ..*old(flash)
        }),
        final(flash).bus@ == old(flash).bus@ + polls(
            (if old(flash).lock { old(flash).busy } else { old(flash).latency }) + 3,
        ),
{
    flash.modify_cr_per(true);
    flash.write_ar(sector.start);
    flash.set_strt();
    let mut ret = blocking_wait_ready(flash);
    let sr = flash.read_sr();
    if !sr.eop {
        ret = Err(Error::Prog);
    } else {
        flash.write_sr(false, false, true);
    }
    flash.modify_cr_per(false);
    clear_all_err(flash);
    assert(flash.bus@ =~= old(flash).bus@ + polls(
        (if old(flash).lock { old(flash).busy } else { old(flash).latency }) + 3,
    ));
    ret
}

/// Writes one block at `start_address`: unlocks the controller, sets
/// program-enable, programs the block and waits, then clears program-enable and
/// every sticky flag whatever the outcome.
pub fn write_block(flash: &mut FlashRegisters, start_address: u32, buf: &[u8; WRITE_SIZE]) -> (r: Result<(), Error>)
    requires
        old(flash).wf(),
        FLASH_BASE <= start_address,
        (start_address - FLASH_BASE) % (WRITE_SIZE as int) == 0,
        start_address - FLASH_BASE + WRITE_SIZE <= old(flash).mem@.len(),
    ensures
        r == status_result(
            old(flash).wrprt || old(flash).protected,
            old(flash).pgerr || (!old(flash).protected && some_unerased(
                old(flash).mem@,
                start_address - FLASH_BASE,
                WRITE_SIZE as int / 2,
            )),
        ),
        final(flash).mem@ == if old(flash).protected {
            old(flash).mem@
        } else {
            programmed(old(flash).mem@, start_address - FLASH_BASE, buf@)
        },
        *final(flash) == (FlashRegisters {
            lock: false,
            key_step: 0,
            pg: false,
            per: false,
            busy: 0,
            pgerr: false,
            wrprt: false,
            eop: false,
            mem: final(flash).mem,
            bus: final(flash).bus,
            ..*old(flash)
        }),
        final(flash).bus@ == old(flash).bus@ + seq![BusOp::Key(KEY1), BusOp::Key(KEY2)] + write_log(
            start_address,
            buf@,
            WRITE_SIZE as int / 2,
        ) + polls(old(flash).latency + 2),
{
    unlock(flash);
    begin_write(flash);
    let r = blocking_write(flash, start_address, buf);
    end_write(flash);
    clear_all_err(flash);
    assert(flash.bus@ =~= old(flash).bus@ + seq![BusOp::Key(KEY1), BusOp::Key(KEY2)] + write_log(
        start_address,
        buf@,
        WRITE_SIZE as int / 2,
    ) + polls(old(flash).latency + 2));
    r
}

/// A block written over erased flash, with no flag set and no write protection,
/// succeeds, and the flash then holds exactly the block's bytes there.
pub proof fn write_erased_reads_back(f: FlashRegisters, start_address: u32, buf: Seq<u8>)
    requires
        f.wf(),
        buf.len() == WRITE_SIZE,
        FLASH_BASE <= start_address,
        (start_address - FLASH_BASE) % (WRITE_SIZE as int) == 0,
        start_address - FLASH_BASE + WRITE_SIZE <= f.mem@.len(),
        !f.protected,
        !f.wrprt,
        !f.pgerr,
        forall|k: int| start_address - FLASH_BASE <= k < start_address - FLASH_BASE + WRITE_SIZE ==>
            f.mem@[k] == ERASE_VALUE,
    ensures
        status_result(
            f.wrprt || f.protected,
            f.pgerr || (!f.protected && some_unerased(f.mem@, start_address - FLASH_BASE, WRITE_SIZE as int / 2)),
        ) == Ok::<(), Error>(()),
        programmed(f.mem@, start_address - FLASH_BASE, buf).subrange(
            start_address - FLASH_BASE,
            start_address - FLASH_BASE + WRITE_SIZE,
        ) == buf,
{
    let off = start_address - FLASH_BASE;
    assert forall|c: int| 0 <= c < WRITE_SIZE as int / 2 implies #[trigger] halfword_erased(f.mem@, off + 2 * c) by {
        assert(f.mem@[off + 2 * c] == ERASE_VALUE);
        assert(f.mem@[off + 2 * c + 1] == ERASE_VALUE);
    }
    let p = programmed(f.mem@, off, buf);
    assert forall|k: int| off <= k < off + WRITE_SIZE implies p[k] == buf[k - off] by {
        assert(chunk_start(off, k) == off);
        assert(halfword_erased(f.mem@, off + 2 * 0));
    }
    assert(p.subrange(off, off + WRITE_SIZE) =~= buf);
}

/// A write to write-protected flash reports `Protected` and leaves the flash as it was.
pub proof fn write_protected_reports_protected(f: FlashRegisters, start_address: u32, buf: Seq<u8>)
    requires
        f.protected,
    ensures
        status_result(
            f.wrprt || f.protected,
            f.pgerr || (!f.protected && some_unerased(f.mem@, start_address - FLASH_BASE, WRITE_SIZE as int / 2)),
        ) == Err::<(), Error>(Error::Protected),
{
}

/// An erase on a controller that never raises end-of-operation reports `Prog`.
pub proof fn erase_without_eop_reports_prog(f: FlashRegisters)
    requires
        !f.eop,
        !f.signals_eop,
    ensures
        erase_result(f) == Err::<(), Error>(Error::Prog),
{
}

} // verus!
