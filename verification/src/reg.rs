use vstd::prelude::*;

verus! {

use crate::mem::{Mem, MEM_WORDS};

/// A read-only register: a typed view of one word address that only
/// permits loads. Write-only and read-write access live in [`WoReg`] and
/// [`RwReg`]; the mode split is the type, so a well-typed driver cannot
/// store through a status register or load through a transmit register.
pub struct RoReg {
    addr: usize,
}

/// A write-only register: permits stores alone.
pub struct WoReg {
    addr: usize,
}

/// A read-write register: permits loads, stores, and masked
/// read-modify-write updates.
pub struct RwReg {
    addr: usize,
}

impl RoReg {
    pub closed spec fn spec_addr(self) -> usize {
        self.addr
    }

    pub open spec fn wf(self) -> bool {
        self.spec_addr() < MEM_WORDS
    }

    /// In-crate constructor used by the peripheral blocks, which hand a
    /// register for each address out at most once per `take`.
    pub(crate) fn at(addr: usize) -> (r: RoReg)
        requires
            addr < MEM_WORDS,
        ensures
            r.wf(),
            r.spec_addr() == addr,
    {
        RoReg { addr }
    }

    /// Unchecked constructor. The caller accepts the obligation that no
    /// conflicting accessor for this address is live; it exists for
    /// contexts that cannot carry the owned handle, such as interrupt
    /// handlers reconstructing a peripheral.
    pub fn unchecked(addr: usize) -> (r: RoReg)
        requires
            addr < MEM_WORDS,
        ensures
            r.wf(),
            r.spec_addr() == addr,
    {
        RoReg { addr }
    }

    pub fn read(&self, m: &Mem) -> (v: u32)
        requires
            self.wf(),
            m.wf(),
        ensures
            v == m@[self.spec_addr() as int],
    {
        m.load(self.addr)
    }
}

impl WoReg {
    pub closed spec fn spec_addr(self) -> usize {
        self.addr
    }

    pub open spec fn wf(self) -> bool {
        self.spec_addr() < MEM_WORDS
    }

    pub(crate) fn at(addr: usize) -> (r: WoReg)
        requires
            addr < MEM_WORDS,
        ensures
            r.wf(),
            r.spec_addr() == addr,
    {
        WoReg { addr }
    }

    /// Unchecked constructor; see [`RoReg::unchecked`].
    pub fn unchecked(addr: usize) -> (r: WoReg)
        requires
            addr < MEM_WORDS,
        ensures
            r.wf(),
            r.spec_addr() == addr,
    {
        WoReg { addr }
    }

    pub fn write(&self, m: &mut Mem, v: u32)
        requires
            self.wf(),
            old(m).wf(),
        ensures
            final(m).wf(),
            final(m)@ == old(m)@.update(self.spec_addr() as int, v),
    {
        m.store(self.addr, v);
    }
}

impl RwReg {
    pub closed spec fn spec_addr(self) -> usize {
        self.addr
    }

    pub open spec fn wf(self) -> bool {
        self.spec_addr() < MEM_WORDS
    }

    pub(crate) fn at(addr: usize) -> (r: RwReg)
        requires
            addr < MEM_WORDS,
        ensures
            r.wf(),
            r.spec_addr() == addr,
    {
        RwReg { addr }
    }

    /// Unchecked constructor; see [`RoReg::unchecked`].
    pub fn unchecked(addr: usize) -> (r: RwReg)
        requires
            addr < MEM_WORDS,
        ensures
            r.wf(),
            r.spec_addr() == addr,
    {
        RwReg { addr }
    }

    pub fn read(&self, m: &Mem) -> (v: u32)
        requires
            self.wf(),
            m.wf(),
        ensures
            v == m@[self.spec_addr() as int],
    {
        m.load(self.addr)
    }

    pub fn write(&self, m: &mut Mem, v: u32)
        requires
            self.wf(),
            old(m).wf(),
        ensures
            final(m).wf(),
            final(m)@ == old(m)@.update(self.spec_addr() as int, v),
    {
        m.store(self.addr, v);
    }

    /// Read-modify-write: raise every bit of `mask`, leave the rest.
    pub fn set_bits(&self, m: &mut Mem, mask: u32)
        requires
            self.wf(),
            old(m).wf(),
        ensures
            final(m).wf(),
            final(m)@ == old(m)@.update(
                self.spec_addr() as int,
                old(m)@[self.spec_addr() as int] | mask,
            ),
    {
        let v = m.load(self.addr);
        m.store(self.addr, v | mask);
    }

    /// Read-modify-write: clear every bit of `mask`, leave the rest.
    pub fn clear_bits(&self, m: &mut Mem, mask: u32)
        requires
            self.wf(),
            old(m).wf(),
        ensures
            final(m).wf(),
            final(m)@ == old(m)@.update(
                self.spec_addr() as int,
                old(m)@[self.spec_addr() as int] & !mask,
            ),
    {
        let v = m.load(self.addr);
        m.store(self.addr, v & !mask);
    }

    /// Read-modify-write with a caller-supplied update: the register's
    /// word is read, passed through `f`, and written back; no other word
    /// moves. Whatever `f` promises of its result holds of the word left
    /// in the register.
    pub fn modify<F: FnOnce(u32) -> u32>(&self, m: &mut Mem, f: F)
        requires
            self.wf(),
            old(m).wf(),
            call_requires(f, (old(m)@[self.spec_addr() as int],)),
        ensures
            final(m).wf(),
            final(m)@ == old(m)@.update(
                self.spec_addr() as int,
                final(m)@[self.spec_addr() as int],
            ),
            call_ensures(
                f,
                (old(m)@[self.spec_addr() as int],),
                final(m)@[self.spec_addr() as int],
            ),
    {
        let v = m.load(self.addr);
        let w = f(v);
        m.store(self.addr, w);
    }

    /// Read-modify-write: replace the bits selected by `mask` with the
    /// corresponding bits of `bits`, leave the rest.
    pub fn modify_masked(&self, m: &mut Mem, mask: u32, bits: u32)
        requires
            self.wf(),
            old(m).wf(),
        ensures
            final(m).wf(),
            final(m)@ == old(m)@.update(
                self.spec_addr() as int,
                (old(m)@[self.spec_addr() as int] & !mask) | (bits & mask),
            ),
    {
        let v = m.load(self.addr);
        m.store(self.addr, (v & !mask) | (bits & mask));
    }
}

} // verus!
