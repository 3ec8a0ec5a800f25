use vstd::prelude::*;

verus! {

/// Abstract state of a tick timer: its period, the time accumulated towards the
/// next firing, and whether it has fired since it was last consumed.
pub struct GateModel {
    pub period: nat,
    pub accumulated: nat,
    pub fired: bool,
}

impl GateModel {
    pub open spec fn wf(self) -> bool {
        0 < self.period && self.accumulated < self.period
    }

    /// Advancing by `elapsed` fires the timer once the accumulated time reaches
    /// the period, and keeps only the remainder of whole periods: a pass that
    /// was starved of several periods fires once, and no later pass fires twice
    /// on account of it.
    pub open spec fn advanced(self, elapsed: nat) -> GateModel {
        let total = self.accumulated + elapsed;
        GateModel {
            period: self.period,
            accumulated: total % self.period,
            fired: self.fired || total >= self.period,
        }
    }

    pub open spec fn consumed(self) -> GateModel {
        GateModel { fired: false, ..self }
    }
}

/// A periodic timer that gates dispatches of the compute kernel. Times are in
/// nanoseconds.
pub struct TickGate {
    period: u64,
    accumulated: u64,
    fired: bool,
}

impl View for TickGate {
    type V = GateModel;

    closed spec fn view(&self) -> GateModel {
        GateModel {
            period: self.period as nat,
            accumulated: self.accumulated as nat,
            fired: self.fired,
        }
    }
}

impl TickGate {
    pub open spec fn wf(&self) -> bool {
        self@.wf()
    }

    /// A timer with the given period that has accumulated nothing, or `None`
    /// for a period of zero.
    pub fn new(period: u64) -> (r: Option<TickGate>)
        ensures
            period == 0 <==> r.is_none(),
            r matches Some(g) ==> g.wf() && g@ == (GateModel {
                period: period as nat,
                accumulated: 0,
                fired: false,
            }),
    {
        if period == 0 {
            None
        } else {
            Some(TickGate { period, accumulated: 0, fired: false })
        }
    }

    pub fn period(&self) -> (r: u64)
        ensures
            r == self@.period,
    {
        self.period
    }

    /// Accumulates `elapsed` against the period.
    pub fn advance(&mut self, elapsed: u64)
        requires
            old(self).wf(),
        ensures
            final(self).wf(),
            final(self)@ == old(self)@.advanced(elapsed as nat),
    {
        let to_next = self.period - self.accumulated;
        if elapsed >= to_next {
            let over = elapsed - to_next;
            proof {
                let p = self.period as int;
                let total = self.accumulated + elapsed;
                assert(total == p + over);
                assert((p + over as int) % p == (over as int) % p) by {
                    vstd::arithmetic::div_mod::lemma_mod_add_multiples_vanish(over as int, p);
                }
            }
            self.accumulated = over % self.period;
            self.fired = true;
        } else {
            proof {
                let total = self.accumulated + elapsed;
                vstd::arithmetic::div_mod::lemma_small_mod(total as nat, self.period as nat);
            }
            self.accumulated = self.accumulated + elapsed;
        }
    }

    /// Whether the timer has fired since it was last consumed, without consuming it.
    pub fn has_fired(&self) -> (r: bool)
        ensures
            r == self@.fired,
    {
        self.fired
    }

    /// Whether the timer has fired since it was last consumed; clears the signal.
    pub fn consume_fired(&mut self) -> (r: bool)
        requires
            old(self).wf(),
        ensures
            r == old(self)@.fired,
            final(self).wf(),
            final(self)@ == old(self)@.consumed(),
    {
        let r = self.fired;
        self.fired = false;
        r
    }
}

} // verus!
