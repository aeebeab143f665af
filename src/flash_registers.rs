use vstd::prelude::*;

verus! {

/// Address of the first byte of flash.
pub const FLASH_BASE: u32 = 0x0800_0000;

/// Size of a flash page, the unit that one erase clears.
pub const ERASE_SIZE: u32 = 0x400;

/// The value that every byte of an erased page holds.
pub const ERASE_VALUE: u8 = 0xFF;

/// First key of the unlock sequence.
pub const KEY1: u32 = 0x4567_0123;

/// Second key of the unlock sequence.
pub const KEY2: u32 = 0xCDEF_89AB;

/// One access to the flash controller whose order the engine's correctness
/// depends on.
pub enum BusOp {
    /// A write of the key register.
    Key(u32),
    /// A half-word store to the flash array, by address and value.
    Store(u32, u16),
    /// A full memory fence.
    Fence,
    /// A read of the status register.
    Poll,
}

/// The flags of the status register as one read sees them.
#[derive(Clone, Copy, PartialEq, Eq, Debug)]
pub struct Status {
    pub bsy: bool,
    pub wrprt: bool,
    pub pgerr: bool,
    pub eop: bool,
}

/// Whether the two bytes at `off` are both erased.
pub open spec fn halfword_erased(mem: Seq<u8>, off: int) -> bool {
    mem[off] == ERASE_VALUE && mem[off + 1] == ERASE_VALUE
}

/// The low byte of a half-word.
pub open spec fn low_byte(v: u16) -> u8 {
    (v & 0xFF) as u8
}

/// The high byte of a half-word.
pub open spec fn high_byte(v: u16) -> u8 {
    (v >> 8) as u8
}

/// `mem` with the page that starts at offset `off` erased.
pub open spec fn page_erased(mem: Seq<u8>, off: int) -> Seq<u8> {
    Seq::new(mem.len(), |k: int| if off <= k < off + ERASE_SIZE { ERASE_VALUE } else { mem[k] })
}

/// The flash controller and the flash array it drives, held as plain values.
///
/// `mem[k]` is the byte at address `FLASH_BASE + k`. `busy` counts the status
/// reads that still see BSY set. `protected` makes the array refuse every
/// program and erase with the write-protection flag; `signals_eop` makes a
/// completed operation raise end-of-operation. `bus` records, in order, the
/// accesses of `BusOp` that reached the controller.
pub struct FlashRegisters {
    pub lock: bool,
    pub pg: bool,
    pub per: bool,
    pub far: u32,
    pub key_step: u32,
    pub busy: u32,
    pub pgerr: bool,
    pub wrprt: bool,
    pub eop: bool,
    pub protected: bool,
    pub signals_eop: bool,
    pub latency: u32,
    pub mem: Vec<u8>,
    pub bus: Ghost<Seq<BusOp>>,
}

impl FlashRegisters {
    /// Every address of the array fits in 32 bits.
    pub open spec fn wf(&self) -> bool {
        FLASH_BASE + self.mem@.len() <= u32::MAX
    }

    /// A locked controller over `size` erased bytes, with flags clear.
    pub fn new(size: u32, latency: u32) -> (r: FlashRegisters)
        requires
            FLASH_BASE + size <= u32::MAX,
        ensures
            r.wf(),
            r.lock,
            !r.pg && !r.per,
            r.key_step == 0,
            r.busy == 0,
            !r.pgerr && !r.wrprt && !r.eop,
            !r.protected,
            r.signals_eop,
            r.latency == latency,
            r.mem@.len() == size,
            forall|k: int| 0 <= k < size ==> r.mem@[k] == ERASE_VALUE,
            r.bus@ == Seq::<BusOp>::empty(),
    {
        let mut mem: Vec<u8> = Vec::new();
        let mut i: u32 = 0;
        while i < size
            invariant
                i <= size,
                mem@.len() == i,
                forall|k: int| 0 <= k < i ==> mem@[k] == ERASE_VALUE,
            decreases size - i,
        {
            mem.push(ERASE_VALUE);
            i = i + 1;
        }
        FlashRegisters {
            lock: true,
            pg: false,
            per: false,
            far: 0,
            key_step: 0,
            busy: 0,
            pgerr: false,
            wrprt: false,
            eop: false,
            protected: false,
            signals_eop: true,
            latency,
            mem,
            bus: Ghost(Seq::empty()),
        }
    }

    /// Writes the key register. KEY1 then KEY2 unlocks a locked controller; an
    /// unlocked one stays unlocked.
    pub fn write_keyr(&mut self, key: u32)
        ensures
            final(self).lock == (old(self).lock && !(key == KEY2 && old(self).key_step == 1)),
            final(self).key_step == if old(self).lock && key == KEY1 { 1u32 } else { 0u32 },
            final(self).bus@ == old(self).bus@.push(BusOp::Key(key)),
            *final(self) == (FlashRegisters {
                lock: final(self).lock,
                key_step: final(self).key_step,
                bus: final(self).bus,
                ..*old(self)
            }),
    {
        self.bus = Ghost(self.bus@.push(BusOp::Key(key)));
        if self.lock {
            if key == KEY1 {
                self.key_step = 1;
            } else if key == KEY2 && self.key_step == 1 {
                self.lock = false;
                self.key_step = 0;
            } else {
                self.key_step = 0;
            }
        } else {
            self.key_step = 0;
        }
    }

    /// Sets the LOCK bit of the control register.
    pub fn set_lock(&mut self)
        ensures
            *final(self) == (FlashRegisters { lock: true, ..*old(self) }),
    {
        self.lock = true;
    }

    /// Writes the whole control register with PG as given and the other bits
    /// zero; a locked controller ignores it.
    pub fn write_cr_pg(&mut self, pg: bool)
        ensures
            *final(self) == if old(self).lock {
                *old(self)
            } else {
                FlashRegisters { pg, per: false, ..*old(self) }
            },
    {
        if !self.lock {
            self.pg = pg;
            self.per = false;
        }
    }

    /// Sets or clears PER in the control register, keeping its other bits; a
    /// locked controller ignores it.
    pub fn modify_cr_per(&mut self, per: bool)
        ensures
            *final(self) == if old(self).lock { *old(self) } else { FlashRegisters { per, ..*old(self) } },
    {
        if !self.lock {
            self.per = per;
        }
    }

    /// Writes the address register.
    pub fn write_ar(&mut self, far: u32)
        ensures
            *final(self) == (FlashRegisters { far, ..*old(self) }),
    {
        self.far = far;
    }

    /// Sets STRT in the control register: with PER set on an unlocked
    /// controller, this erases the page at the address register.
    pub fn set_strt(&mut self)
        requires
            old(self).wf(),
            FLASH_BASE <= old(self).far,
            (old(self).far - FLASH_BASE) % (ERASE_SIZE as int) == 0,
            old(self).far - FLASH_BASE + ERASE_SIZE <= old(self).mem@.len(),
        ensures
            final(self).wf(),
            old(self).lock || !old(self).per ==> *final(self) == *old(self),
            !old(self).lock && old(self).per && old(self).protected ==> *final(self) == (FlashRegisters {
                wrprt: true,
                busy: old(self).latency,
                ..*old(self)
            }),
            !old(self).lock && old(self).per && !old(self).protected ==> {
                &&& final(self).mem@ == page_erased(old(self).mem@, old(self).far - FLASH_BASE)
                &&& *final(self) == (FlashRegisters {
                    eop: old(self).eop || old(self).signals_eop,
                    busy: old(self).latency,
                    mem: final(self).mem,
                    ..*old(self)
                })
            },
    {
        if !self.lock && self.per {
            if self.protected {
                self.wrprt = true;
            } else {
                let start: usize = (self.far - FLASH_BASE) as usize;
                let mut i: usize = 0;
                while i < ERASE_SIZE as usize
                    invariant
                        i <= ERASE_SIZE,
                        start + ERASE_SIZE <= self.mem@.len(),
                        start == old(self).far - FLASH_BASE,
                        self.mem@.len() == old(self).mem@.len(),
                        forall|k: int| 0 <= k < self.mem@.len() ==> self.mem@[k] == if start <= k < start + i {
                            ERASE_VALUE
                        } else {
                            old(self).mem@[k]
                        },
                        *self == (FlashRegisters { mem: self.mem, ..*old(self) }),
                    decreases ERASE_SIZE - i,
                {
                    self.mem.set(start + i, ERASE_VALUE);
                    i = i + 1;
                }
                assert(self.mem@ =~= page_erased(old(self).mem@, old(self).far - FLASH_BASE));
                if self.signals_eop {
                    self.eop = true;
                }
            }
            self.busy = self.latency;
        }
    }

    /// Stores a half-word at `address` on the flash bus: with PG set on an
    /// unlocked controller, this programs the two bytes, little-endian, if both
    /// are erased, and raises the programming error otherwise.
    pub fn program_halfword(&mut self, address: u32, value: u16)
        requires
            old(self).wf(),
            FLASH_BASE <= address,
            address - FLASH_BASE + 2 <= old(self).mem@.len(),
        ensures
            final(self).wf(),
            final(self).bus@ == old(self).bus@.push(BusOp::Store(address, value)),
            old(self).lock || !old(self).pg ==> *final(self) == (FlashRegisters { bus: final(self).bus, ..*old(self) }),
            !old(self).lock && old(self).pg && old(self).protected ==> *final(self) == (FlashRegisters {
                wrprt: true,
                busy: old(self).latency,
                bus: final(self).bus,
                ..*old(self)
            }),
            !old(self).lock && old(self).pg && !old(self).protected && !halfword_erased(
                old(self).mem@,
                address - FLASH_BASE,
            ) ==> *final(self) == (FlashRegisters {
                pgerr: true,
                busy: old(self).latency,
                bus: final(self).bus,
                ..*old(self)
            }),
            !old(self).lock && old(self).pg && !old(self).protected && halfword_erased(
                old(self).mem@,
                address - FLASH_BASE,
            ) ==> {
                &&& final(self).mem@ == old(self).mem@.update(address - FLASH_BASE, low_byte(value)).update(
                    address - FLASH_BASE + 1,
                    high_byte(value),
                )
                &&& *final(self) == (FlashRegisters {
                    eop: old(self).eop || old(self).signals_eop,
                    busy: old(self).latency,
                    mem: final(self).mem,
                    bus: final(self).bus,
                    ..*old(self)
                })
            },
    {
        self.bus = Ghost(self.bus@.push(BusOp::Store(address, value)));
        if !self.lock && self.pg {
            let off: usize = (address - FLASH_BASE) as usize;
            if self.protected {
                self.wrprt = true;
            } else if self.mem[off] != ERASE_VALUE || self.mem[off + 1] != ERASE_VALUE {
                self.pgerr = true;
            } else {
                self.mem.set(off, (value & 0xFF) as u8);
                self.mem.set(off + 1, (value >> 8) as u8);
                if self.signals_eop {
                    self.eop = true;
                }
            }
            self.busy = self.latency;
        }
    }

    /// Reads the status register. Each read while the controller is busy brings
    /// the operation one step closer to its end.
    pub fn read_sr(&mut self) -> (r: Status)
        ensures
            r == (Status { bsy: old(self).busy > 0, wrprt: old(self).wrprt, pgerr: old(self).pgerr, eop: old(self).eop }),
            final(self).busy == if old(self).busy > 0 { (old(self).busy - 1) as u32 } else { 0u32 },
            final(self).bus@ == old(self).bus@.push(BusOp::Poll),
            *final(self) == (FlashRegisters { busy: final(self).busy, bus: final(self).bus, ..*old(self) }),
    {
        self.bus = Ghost(self.bus@.push(BusOp::Poll));
        let r = Status { bsy: self.busy > 0, wrprt: self.wrprt, pgerr: self.pgerr, eop: self.eop };
        if self.busy > 0 {
            self.busy = self.busy - 1;
        }
        r
    }

    /// Records that a full memory fence was issued after the accesses so far.
    pub fn fence_issued(&mut self)
        ensures
            final(self).bus@ == old(self).bus@.push(BusOp::Fence),
            *final(self) == (FlashRegisters { bus: final(self).bus, ..*old(self) }),
    {
        self.bus = Ghost(self.bus@.push(BusOp::Fence));
    }

    /// Writes the status register: each flag written as one is cleared.
    pub fn write_sr(&mut self, pgerr: bool, wrprt: bool, eop: bool)
        ensures
            *final(self) == (FlashRegisters {
                pgerr: old(self).pgerr && !pgerr,
                wrprt: old(self).wrprt && !wrprt,
                eop: old(self).eop && !eop,
                ..*old(self)
            }),
    {
        if pgerr {
            self.pgerr = false;
        }
        if wrprt {
            self.wrprt = false;
        }
        if eop {
            self.eop = false;
        }
    }
}

} // verus!
