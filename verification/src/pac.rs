use vstd::prelude::*;

verus! {

use crate::reg::{RoReg, RwReg, WoReg};

// Word addresses of the chip's registers. These are configuration data
// fixed by the memory map, not logic; every driver contract names them.
/// GPIO port A direction register: bit n high drives line n as an output.
pub const GPIOA_DIR: usize = 0;

/// GPIO port A output data register: the level driven on each output line.
pub const GPIOA_ODR: usize = 1;

/// GPIO port A input data register: the level sampled on each line.
pub const GPIOA_IDR: usize = 2;

/// UART status register; see the flag masks in the serial module.
pub const UART1_STAT: usize = 4;

/// UART receive data register: the byte most recently received.
pub const UART1_RXD: usize = 5;

/// UART transmit data register: the byte to send next.
pub const UART1_TXD: usize = 6;

/// UART control register: enable, framing and interrupt-enable bits.
pub const UART1_CTRL: usize = 7;

/// UART baud divisor register.
pub const UART1_BAUD: usize = 8;

/// The GPIO port A peripheral block: the registers of one hardware unit,
/// grouped under one exclusively owned, non-cloneable handle.
pub struct Gpioa {
    pub dir: RwReg,
    pub odr: RwReg,
    pub idr: RoReg,
}

impl Gpioa {
    /// Each register sits at its place in the memory map.
    pub open spec fn wf(self) -> bool {
        &&& self.dir.wf() && self.dir.spec_addr() == GPIOA_DIR
        &&& self.odr.wf() && self.odr.spec_addr() == GPIOA_ODR
        &&& self.idr.wf() && self.idr.spec_addr() == GPIOA_IDR
    }

    pub(crate) fn assemble() -> (g: Gpioa)
        ensures
            g.wf(),
    {
        Gpioa { dir: RwReg::at(GPIOA_DIR), odr: RwReg::at(GPIOA_ODR), idr: RoReg::at(GPIOA_IDR) }
    }

    /// Unchecked escape hatch: construct the block without consulting the
    /// singleton registry. It always succeeds and exists for contexts that
    /// have no ownership-carrying call path from startup — an interrupt
    /// handler above all. The caller accepts the obligation that no
    /// register of this block is concurrently accessed by another live
    /// handle without equivalent protection (for instance by keeping
    /// interrupts masked around the conflicting window).
    pub fn conjure() -> (g: Gpioa)
        ensures
            g.wf(),
    {
        Gpioa {
            dir: RwReg::unchecked(GPIOA_DIR),
            odr: RwReg::unchecked(GPIOA_ODR),
            idr: RoReg::unchecked(GPIOA_IDR),
        }
    }
}

/// The UART1 peripheral block.
pub struct Uart1 {
    pub stat: RoReg,
    pub rxd: RoReg,
    pub txd: WoReg,
    pub ctrl: RwReg,
    pub baud: WoReg,
}

impl Uart1 {
    pub open spec fn wf(self) -> bool {
        &&& self.stat.wf() && self.stat.spec_addr() == UART1_STAT
        &&& self.rxd.wf() && self.rxd.spec_addr() == UART1_RXD
        &&& self.txd.wf() && self.txd.spec_addr() == UART1_TXD
        &&& self.ctrl.wf() && self.ctrl.spec_addr() == UART1_CTRL
        &&& self.baud.wf() && self.baud.spec_addr() == UART1_BAUD
    }

    pub(crate) fn assemble() -> (u: Uart1)
        ensures
            u.wf(),
    {
        Uart1 {
            stat: RoReg::at(UART1_STAT),
            rxd: RoReg::at(UART1_RXD),
            txd: WoReg::at(UART1_TXD),
            ctrl: RwReg::at(UART1_CTRL),
            baud: WoReg::at(UART1_BAUD),
        }
    }

    /// Unchecked escape hatch; see [`Gpioa::conjure`].
    pub fn conjure() -> (u: Uart1)
        ensures
            u.wf(),
    {
        Uart1 {
            stat: RoReg::unchecked(UART1_STAT),
            rxd: RoReg::unchecked(UART1_RXD),
            txd: WoReg::unchecked(UART1_TXD),
            ctrl: RwReg::unchecked(UART1_CTRL),
            baud: WoReg::unchecked(UART1_BAUD),
        }
    }
}

/// The TIMER1 peripheral block. Its free-running counter lives behind the
/// handle the timer module builds from it, so the block itself is a pure
/// ownership token.
pub struct Timer1 {}

impl Timer1 {
    pub(crate) fn assemble() -> (t: Timer1) {
        Timer1 {  }
    }

    /// Unchecked escape hatch; see [`Gpioa::conjure`].
    pub fn conjure() -> (t: Timer1) {
        Timer1::assemble()
    }
}

/// The peripheral singleton registry: one taken-flag per peripheral
/// block, each initially available and flipped — never reset — by a
/// successful `take`. The flags themselves are private; the only way to
/// observe or change them is through the `take` operations, so no caller
/// can hand a block out twice.
pub struct Registry {
    gpioa_taken: bool,
    uart1_taken: bool,
    timer1_taken: bool,
}

impl Registry {
    pub closed spec fn spec_gpioa_taken(self) -> bool {
        self.gpioa_taken
    }

    pub closed spec fn spec_uart1_taken(self) -> bool {
        self.uart1_taken
    }

    pub closed spec fn spec_timer1_taken(self) -> bool {
        self.timer1_taken
    }

    /// At program start every peripheral is available.
    pub fn new() -> (r: Registry)
        ensures
            !r.spec_gpioa_taken(),
            !r.spec_uart1_taken(),
            !r.spec_timer1_taken(),
    {
        Registry { gpioa_taken: false, uart1_taken: false, timer1_taken: false }
    }

    /// Claim the GPIO port A block. The first call yields the live block
    /// and marks it taken; every later call finds it taken and yields
    /// nothing, whatever interleaving of other takes or conjure calls came
    /// between — conjure never touches the registry.
    pub fn take_gpioa(&mut self) -> (r: Option<Gpioa>)
        ensures
            !old(self).spec_gpioa_taken() ==> (r matches Some(g) && g.wf())
                && final(self).spec_gpioa_taken(),
            old(self).spec_gpioa_taken() ==> r is None && final(self).spec_gpioa_taken(),
            final(self).spec_uart1_taken() == old(self).spec_uart1_taken(),
            final(self).spec_timer1_taken() == old(self).spec_timer1_taken(),
    {
        if self.gpioa_taken {
            None
        } else {
            self.gpioa_taken = true;
            Some(Gpioa::assemble())
        }
    }

    /// Claim the UART1 block; same discipline as [`Registry::take_gpioa`].
    pub fn take_uart1(&mut self) -> (r: Option<Uart1>)
        ensures
            !old(self).spec_uart1_taken() ==> (r matches Some(u) && u.wf())
                && final(self).spec_uart1_taken(),
            old(self).spec_uart1_taken() ==> r is None && final(self).spec_uart1_taken(),
            final(self).spec_gpioa_taken() == old(self).spec_gpioa_taken(),
            final(self).spec_timer1_taken() == old(self).spec_timer1_taken(),
    {
        if self.uart1_taken {
            None
        } else {
            self.uart1_taken = true;
            Some(Uart1::assemble())
        }
    }

    /// Claim the TIMER1 block; same discipline as [`Registry::take_gpioa`].
    pub fn take_timer1(&mut self) -> (r: Option<Timer1>)
        ensures
            !old(self).spec_timer1_taken() ==> r is Some && final(self).spec_timer1_taken(),
            old(self).spec_timer1_taken() ==> r is None && final(self).spec_timer1_taken(),
            final(self).spec_gpioa_taken() == old(self).spec_gpioa_taken(),
            final(self).spec_uart1_taken() == old(self).spec_uart1_taken(),
    {
        if self.timer1_taken {
            None
        } else {
            self.timer1_taken = true;
            Some(Timer1::assemble())
        }
    }
}

} // verus!
