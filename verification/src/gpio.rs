use vstd::prelude::*;

verus! {

use crate::error::IoError;
use crate::mem::Mem;
use crate::pac::{Gpioa, GPIOA_DIR, GPIOA_IDR, GPIOA_ODR};
use crate::reg::{RoReg, RwReg};

// The GPIO registers hold one bit per line; every contract in this
// module is phrased with these word-level bit functions.
/// Whether bit `n` of `w` is high.
pub open spec fn bit_of(w: u32, n: u32) -> bool {
    w & (1u32 << n) != 0u32
}

/// `w` with bit `n` raised.
pub open spec fn set_bit(w: u32, n: u32) -> u32 {
    w | (1u32 << n)
}

/// `w` with bit `n` cleared.
pub open spec fn clear_bit(w: u32, n: u32) -> u32 {
    w & !(1u32 << n)
}

/// `w` with bit `n` inverted.
pub open spec fn flip_bit(w: u32, n: u32) -> u32 {
    w ^ (1u32 << n)
}

/// `w` with bit `n` driven to `level`.
pub open spec fn with_bit(w: u32, n: u32, level: bool) -> u32 {
    if level {
        set_bit(w, n)
    } else {
        clear_bit(w, n)
    }
}

/// Mode tag of a pin that was split off its port and not yet configured.
pub struct Unconfigured;

/// Mode tag of a pin configured as a digital input.
pub struct Input;

/// Mode tag of a pin configured as a digital output.
pub struct Output;

/// One GPIO line of port A, identified by its line number `N` in the
/// type and carrying its mode `M` as a type tag.
///
/// The tag gates which operations exist at all: level-driving methods
/// are defined only on `Pin<Output, N>` and level-sampling methods only
/// on `Pin<Input, N>`, so calling an input-only operation on an output
/// pin is a compile-time rejection, not a runtime failure. Changing mode
/// consumes the handle and returns one of the new type; the old handle
/// is statically unusable afterwards.
pub struct Pin<M, const N: u32> {
    mode: M,
}

/// The pin handles of port A, one per physical line, produced by
/// [`Gpioa::split`]. The handles are disjoint by construction: each line
/// number occurs in exactly one field's type.
pub struct GpioaPins {
    pub pa0: Pin<Unconfigured, 0>,
    pub pa1: Pin<Unconfigured, 1>,
    pub pa2: Pin<Unconfigured, 2>,
    pub pa3: Pin<Unconfigured, 3>,
    pub pa4: Pin<Unconfigured, 4>,
    pub pa5: Pin<Unconfigured, 5>,
    pub pa6: Pin<Unconfigured, 6>,
    pub pa7: Pin<Unconfigured, 7>,
    pub pa8: Pin<Unconfigured, 8>,
    pub pa9: Pin<Unconfigured, 9>,
    pub pa10: Pin<Unconfigured, 10>,
    pub pa11: Pin<Unconfigured, 11>,
    pub pa12: Pin<Unconfigured, 12>,
    pub pa13: Pin<Unconfigured, 13>,
    pub pa14: Pin<Unconfigured, 14>,
    pub pa15: Pin<Unconfigured, 15>,
    pub pa16: Pin<Unconfigured, 16>,
    pub pa17: Pin<Unconfigured, 17>,
    pub pa18: Pin<Unconfigured, 18>,
    pub pa19: Pin<Unconfigured, 19>,
    pub pa20: Pin<Unconfigured, 20>,
    pub pa21: Pin<Unconfigured, 21>,
    pub pa22: Pin<Unconfigured, 22>,
    pub pa23: Pin<Unconfigured, 23>,
    pub pa24: Pin<Unconfigured, 24>,
    pub pa25: Pin<Unconfigured, 25>,
    pub pa26: Pin<Unconfigured, 26>,
    pub pa27: Pin<Unconfigured, 27>,
    pub pa28: Pin<Unconfigured, 28>,
    pub pa29: Pin<Unconfigured, 29>,
    pub pa30: Pin<Unconfigured, 30>,
    pub pa31: Pin<Unconfigured, 31>,
}

impl Gpioa {
    /// One-time decomposition of the port into its pins. The port block
    /// is consumed, so the decomposition cannot be repeated and no pin
    /// handle can ever be duplicated.
    pub fn split(self) -> (pins: GpioaPins) {
        GpioaPins {
            pa0: Pin { mode: Unconfigured },
            pa1: Pin { mode: Unconfigured },
            pa2: Pin { mode: Unconfigured },
            pa3: Pin { mode: Unconfigured },
            pa4: Pin { mode: Unconfigured },
            pa5: Pin { mode: Unconfigured },
            pa6: Pin { mode: Unconfigured },
            pa7: Pin { mode: Unconfigured },
            pa8: Pin { mode: Unconfigured },
            pa9: Pin { mode: Unconfigured },
            pa10: Pin { mode: Unconfigured },
            pa11: Pin { mode: Unconfigured },
            pa12: Pin { mode: Unconfigured },
            pa13: Pin { mode: Unconfigured },
            pa14: Pin { mode: Unconfigured },
            pa15: Pin { mode: Unconfigured },
            pa16: Pin { mode: Unconfigured },
            pa17: Pin { mode: Unconfigured },
            pa18: Pin { mode: Unconfigured },
            pa19: Pin { mode: Unconfigured },
            pa20: Pin { mode: Unconfigured },
            pa21: Pin { mode: Unconfigured },
            pa22: Pin { mode: Unconfigured },
            pa23: Pin { mode: Unconfigured },
            pa24: Pin { mode: Unconfigured },
            pa25: Pin { mode: Unconfigured },
            pa26: Pin { mode: Unconfigured },
            pa27: Pin { mode: Unconfigured },
            pa28: Pin { mode: Unconfigured },
            pa29: Pin { mode: Unconfigured },
            pa30: Pin { mode: Unconfigured },
            pa31: Pin { mode: Unconfigured },
        }
    }
}

impl<M, const N: u32> Pin<M, N> {
    /// Configure the line as an output: raise its direction bit, leaving
    /// every other line's direction and every other register untouched.
    /// Consumes the handle and returns the output-mode handle.
    pub fn into_output(self, m: &mut Mem) -> (p: Pin<Output, N>)
        requires
            N < 32,
            old(m).wf(),
        ensures
            final(m).wf(),
            final(m)@ == old(m)@.update(
                GPIOA_DIR as int,
                set_bit(old(m)@[GPIOA_DIR as int], N),
            ),
    {
        let dir = RwReg::at(GPIOA_DIR);
        dir.set_bits(m, 1u32 << N);
        Pin { mode: Output }
    }

    /// Configure the line as an input: clear its direction bit, leaving
    /// everything else untouched. Consumes the handle and returns the
    /// input-mode handle.
    pub fn into_input(self, m: &mut Mem) -> (p: Pin<Input, N>)
        requires
            N < 32,
            old(m).wf(),
        ensures
            final(m).wf(),
            final(m)@ == old(m)@.update(
                GPIOA_DIR as int,
                clear_bit(old(m)@[GPIOA_DIR as int], N),
            ),
    {
        let dir = RwReg::at(GPIOA_DIR);
        dir.clear_bits(m, 1u32 << N);
        Pin { mode: Input }
    }
}

impl<const N: u32> Pin<Output, N> {
    /// Drive the line to `level`, leaving every other line's output and
    /// every other register untouched.
    pub fn set_level(&self, m: &mut Mem, level: bool)
        requires
            N < 32,
            old(m).wf(),
        ensures
            final(m).wf(),
            final(m)@ == old(m)@.update(
                GPIOA_ODR as int,
                with_bit(old(m)@[GPIOA_ODR as int], N, level),
            ),
    {
        let odr = RwReg::at(GPIOA_ODR);
        if level {
            odr.set_bits(m, 1u32 << N);
        } else {
            odr.clear_bits(m, 1u32 << N);
        }
    }

    /// Drive the line high.
    pub fn set_high(&self, m: &mut Mem) -> (r: Result<(), IoError>)
        requires
            N < 32,
            old(m).wf(),
        ensures
            final(m).wf(),
            final(m)@ == old(m)@.update(
                GPIOA_ODR as int,
                set_bit(old(m)@[GPIOA_ODR as int], N),
            ),
            r is Ok,
    {
        self.set_level(m, true);
        Ok(())
    }

    /// Drive the line low.
    pub fn set_low(&self, m: &mut Mem) -> (r: Result<(), IoError>)
        requires
            N < 32,
            old(m).wf(),
        ensures
            final(m).wf(),
            final(m)@ == old(m)@.update(
                GPIOA_ODR as int,
                clear_bit(old(m)@[GPIOA_ODR as int], N),
            ),
            r is Ok,
    {
        self.set_level(m, false);
        Ok(())
    }

    /// Read the currently driven level back and write its complement:
    /// one read-modify-write of the output register. Not atomic against
    /// a concurrent writer to the same port word; a caller sharing the
    /// port across contexts must bracket this with interrupts masked.
    pub fn toggle(&self, m: &mut Mem) -> (r: Result<(), IoError>)
        requires
            N < 32,
            old(m).wf(),
        ensures
            final(m).wf(),
            final(m)@ == old(m)@.update(
                GPIOA_ODR as int,
                flip_bit(old(m)@[GPIOA_ODR as int], N),
            ),
            r is Ok,
    {
        let odr = RwReg::at(GPIOA_ODR);
        let v = odr.read(m);
        odr.write(m, v ^ (1u32 << N));
        Ok(())
    }
}

impl<const N: u32> Pin<Input, N> {
    /// Sample the line. The fallible signature is kept for uniformity
    /// with genuinely fallible peripherals; for a digital input read the
    /// error variant is unreachable, and the contract says so.
    pub fn is_high(&self, m: &Mem) -> (r: Result<bool, IoError>)
        requires
            N < 32,
            m.wf(),
        ensures
            r == Ok::<bool, IoError>(bit_of(m@[GPIOA_IDR as int], N)),
    {
        let idr = RoReg::at(GPIOA_IDR);
        let v = idr.read(m);
        Ok(v & (1u32 << N) != 0u32)
    }

    /// Sample the line for a low level; the complement of [`Pin::is_high`].
    pub fn is_low(&self, m: &Mem) -> (r: Result<bool, IoError>)
        requires
            N < 32,
            m.wf(),
        ensures
            r == Ok::<bool, IoError>(!bit_of(m@[GPIOA_IDR as int], N)),
    {
        let idr = RoReg::at(GPIOA_IDR);
        let v = idr.read(m);
        Ok(v & (1u32 << N) == 0u32)
    }
}

/// Law: driving a line and then sampling it through a loopback wire —
/// one whose input word carries the same bit the output word drives —
/// observes exactly the driven level. Together with the contracts of
/// [`Pin::set_level`] and [`Pin::is_high`] this says a loopback harness
/// reads back `true` after driving high and `false` after driving low.
pub proof fn lemma_loopback_observes_level(w: u32, n: u32, level: bool)
    requires
        n < 32,
    ensures
        bit_of(with_bit(w, n, level), n) == level,
{
    assert(bit_of(with_bit(w, n, level), n) == level) by (bit_vector)
        requires
            n < 32,
    ;
}

/// Law: driving one line never disturbs another line of the same port.
pub proof fn lemma_drive_leaves_other_lines(w: u32, n: u32, level: bool, k: u32)
    requires
        n < 32,
        k < 32,
        k != n,
    ensures
        bit_of(with_bit(w, n, level), k) == bit_of(w, k),
{
    assert(bit_of(with_bit(w, n, level), k) == bit_of(w, k)) by (bit_vector)
        requires
            n < 32 && k < 32 && k != n,
    ;
}

/// Law: a toggle flips the previously observed level exactly once — the
/// toggled line reads back as the complement of what it read before,
/// and no other line of the port moves.
pub proof fn lemma_toggle_flips_exactly_once(w: u32, n: u32)
    requires
        n < 32,
    ensures
        bit_of(flip_bit(w, n), n) == !bit_of(w, n),
{
    assert(bit_of(flip_bit(w, n), n) == !bit_of(w, n)) by (bit_vector)
        requires
            n < 32,
    ;
}

/// Law: a toggle of one line leaves every other line of the port as it
/// was.
pub proof fn lemma_toggle_leaves_other_lines(w: u32, n: u32, k: u32)
    requires
        n < 32,
        k < 32,
        k != n,
    ensures
        bit_of(flip_bit(w, n), k) == bit_of(w, k),
{
    assert(bit_of(flip_bit(w, n), k) == bit_of(w, k)) by (bit_vector)
        requires
            n < 32 && k < 32 && k != n,
    ;
}

} // verus!
