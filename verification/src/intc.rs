use vstd::prelude::*;

verus! {

/// The core's interrupt-control state: the global machine
/// interrupt-enable bit, the enable of the machine-external interrupt
/// source, and that source's pending line.
///
/// This models the control-status registers the core owns. Delivery
/// itself is the hardware's move: at every instruction boundary it gets
/// one dispatch opportunity, [`IntCtl::dispatch`], which takes a
/// deliverable interrupt — so a handler runs before the next instruction
/// of the preempted context — and otherwise changes nothing.
pub struct IntCtl {
    pub mie: bool,
    pub mext: bool,
    pub pending: bool,
}

/// An interrupt is deliverable when delivery is globally enabled, the
/// source is unmasked, and the source's condition has been raised.
pub open spec fn deliverable(c: IntCtl) -> bool {
    c.mie && c.mext && c.pending
}

/// The state after one dispatch opportunity: a deliverable interrupt is
/// taken and its pending line drops; otherwise nothing moves.
pub open spec fn after_dispatch(c: IntCtl) -> IntCtl {
    if deliverable(c) {
        IntCtl { mie: c.mie, mext: c.mext, pending: false }
    } else {
        c
    }
}

impl IntCtl {
    /// After reset, delivery is globally masked, every source is masked,
    /// and nothing is pending.
    pub fn new() -> (c: IntCtl)
        ensures
            c == (IntCtl { mie: false, mext: false, pending: false }),
    {
        IntCtl { mie: false, mext: false, pending: false }
    }

    /// Set the global interrupt-enable bit; sources and pending lines
    /// are untouched.
    pub fn enable_interrupts(&mut self)
        ensures
            *final(self) == (IntCtl { mie: true, mext: old(self).mext, pending: old(self).pending }),
    {
        self.mie = true;
    }

    /// Unmask the machine-external interrupt source — the line that, for
    /// instance, carries the UART's receive events — without touching
    /// the global enable or the pending line.
    pub fn enable_external_interrupt(&mut self)
        ensures
            *final(self) == (IntCtl { mie: old(self).mie, mext: true, pending: old(self).pending }),
    {
        self.mext = true;
    }

    /// Clear the global enable and report what it was: the entry half of
    /// a critical section. A region that conflicts with an interrupt
    /// handler's register access brackets itself between this and
    /// [`IntCtl::restore_interrupts`].
    pub fn disable_interrupts(&mut self) -> (prev: bool)
        ensures
            prev == old(self).mie,
            *final(self) == (IntCtl { mie: false, mext: old(self).mext, pending: old(self).pending }),
    {
        let prev = self.mie;
        self.mie = false;
        prev
    }

    /// Put the global enable back to `prev`: the exit half of a critical
    /// section.
    pub fn restore_interrupts(&mut self, prev: bool)
        ensures
            *final(self) == (IntCtl { mie: prev, mext: old(self).mext, pending: old(self).pending }),
    {
        self.mie = prev;
    }

    /// The hardware raises the source's condition: the pending line goes
    /// high and stays high until the interrupt is delivered.
    pub fn raise(&mut self)
        ensures
            *final(self) == (IntCtl { mie: old(self).mie, mext: old(self).mext, pending: true }),
    {
        self.pending = true;
    }

    /// One dispatch opportunity, as the hardware takes it at an
    /// instruction boundary: reports whether the handler runs now, and
    /// if it does, the pending line drops with it.
    pub fn dispatch(&mut self) -> (fired: bool)
        ensures
            fired == deliverable(*old(self)),
            *final(self) == after_dispatch(*old(self)),
    {
        if self.mie && self.mext && self.pending {
            self.pending = false;
            true
        } else {
            false
        }
    }
}

/// Law: exactly-once delivery. A deliverable interrupt fires at the very
/// next dispatch opportunity, its delivery drops the pending line while
/// leaving both enables as they were, and with no new trigger the
/// following opportunity delivers nothing — one trigger, one handler
/// run, none missed and none doubled.
pub proof fn lemma_delivered_exactly_once(c: IntCtl)
    requires
        deliverable(c),
    ensures
        after_dispatch(c) == (IntCtl { mie: c.mie, mext: c.mext, pending: false }),
        !deliverable(after_dispatch(c)),
        after_dispatch(after_dispatch(c)) == after_dispatch(c),
{
}

/// The state after `k` consecutive dispatch opportunities with no new
/// trigger in between.
pub open spec fn after_opportunities(c: IntCtl, k: nat) -> IntCtl
    decreases k,
{
    if k == 0 {
        c
    } else {
        after_dispatch(after_opportunities(c, (k - 1) as nat))
    }
}

/// How many of `k` consecutive dispatch opportunities deliver the
/// handler, with no new trigger in between.
pub open spec fn deliveries(c: IntCtl, k: nat) -> nat
    decreases k,
{
    if k == 0 {
        0
    } else {
        deliveries(c, (k - 1) as nat) + if deliverable(after_opportunities(c, (k - 1) as nat)) {
            1nat
        } else {
            0nat
        }
    }
}

/// Once the single trigger has been delivered, the pending line stays
/// low through every further opportunity.
pub proof fn lemma_pending_stays_low(c: IntCtl, k: nat)
    requires
        deliverable(c),
        k >= 1,
    ensures
        !after_opportunities(c, k).pending,
        !deliverable(after_opportunities(c, k)),
    decreases k,
{
    if k == 1 {
        assert(after_opportunities(c, 0) == c);
        assert(after_opportunities(c, 1) == after_dispatch(c));
    } else {
        lemma_pending_stays_low(c, (k - 1) as nat);
        assert(after_opportunities(c, k) == after_dispatch(after_opportunities(c, (k - 1) as nat)));
    }
}

/// Law: exactly once per trigger, over any horizon. From a state with a
/// single pending, unmasked trigger, any number of dispatch
/// opportunities runs the handler exactly once — at the first
/// opportunity, before anything after that boundary — with no delivery
/// missed and none doubled.
pub proof fn lemma_single_trigger_single_delivery(c: IntCtl, k: nat)
    requires
        deliverable(c),
        k >= 1,
    ensures
        deliveries(c, k) == 1,
        deliverable(after_opportunities(c, 0)),
        !deliverable(after_opportunities(c, k)),
    decreases k,
{
    if k == 1 {
        assert(deliveries(c, 0) == 0);
        assert(deliveries(c, 1) == 1);
    } else {
        lemma_single_trigger_single_delivery(c, (k - 1) as nat);
        lemma_pending_stays_low(c, (k - 1) as nat);
        assert(deliveries(c, k) == deliveries(c, (k - 1) as nat));
    }
    lemma_pending_stays_low(c, k);
    assert(after_opportunities(c, 0) == c);
}

/// Law: a masked section defers delivery. While the global enable is
/// down nothing is deliverable and dispatch opportunities change
/// nothing, so register accesses bracketed by
/// [`IntCtl::disable_interrupts`] and [`IntCtl::restore_interrupts`]
/// cannot be preempted by the handler; the pending line survives the
/// section, so the trigger is deferred, not lost.
pub proof fn lemma_masked_section_defers_delivery(c: IntCtl)
    requires
        !c.mie,
    ensures
        !deliverable(c),
        after_dispatch(c) == c,
{
}

} // verus!
