//! A counting concurrency gate.
//!
//! A gate hands out at most `bound` permits at once. Acquiring never blocks
//! here: [`ConcurrencyGate::try_acquire`] either grants a permit or says that
//! none is free, and the runtime decides how to wait. It also records the
//! highest number of permits ever held at once, as a probe for the bound.
use vstd::prelude::*;

verus! {

/// Mathematical model of a gate.
pub struct GateState {
    /// The most permits that may be held at once.
    pub bound: nat,
    /// Permits held now.
    pub held: nat,
    /// The most permits held at once so far.
    pub peak: nat,
}

/// An operation on a gate.
#[derive(Debug, Clone, Copy, PartialEq, Eq)]
pub enum GateOp {
    Acquire,
    Release,
}

/// A gate is well formed when what is held now never exceeds the peak, and
/// the peak never exceeds the bound.
pub open spec fn gate_wf(g: GateState) -> bool {
    g.held <= g.peak <= g.bound
}

/// Whether an acquisition would be granted.
pub open spec fn grants(g: GateState) -> bool {
    g.held < g.bound
}

/// A gate after one operation. A refused acquisition, and a release with
/// nothing held, change nothing.
pub open spec fn gate_step(g: GateState, op: GateOp) -> GateState {
    match op {
        GateOp::Acquire => if grants(g) {
            GateState {
                bound: g.bound,
                held: g.held + 1,
                peak: if g.held + 1 > g.peak {
                    g.held + 1
                } else {
                    g.peak
                },
            }
        } else {
            g
        },
        GateOp::Release => if g.held > 0 {
            GateState { bound: g.bound, held: (g.held - 1) as nat, peak: g.peak }
        } else {
            g
        },
    }
}

/// A gate after a sequence of operations.
pub open spec fn gate_run(g: GateState, ops: Seq<GateOp>) -> GateState
    decreases ops.len(),
{
    if ops.len() == 0 {
        g
    } else {
        gate_run(gate_step(g, ops[0]), ops.drop_first())
    }
}

/// `n` acquisitions in a row.
pub open spec fn acquisitions(n: nat) -> Seq<GateOp> {
    Seq::new(n, |i: int| GateOp::Acquire)
}

/// For any interleaving of acquisitions and releases, at no point are more
/// permits held than the bound allows, and the recorded peak stays within it.
pub proof fn lemma_gate_never_exceeds_bound(g: GateState, ops: Seq<GateOp>)
    requires
        gate_wf(g),
    ensures
        gate_wf(gate_run(g, ops)),
        gate_run(g, ops).held <= g.bound,
        gate_run(g, ops).peak <= g.bound,
        gate_run(g, ops).bound == g.bound,
    decreases ops.len(),
{
    if ops.len() > 0 {
        lemma_gate_never_exceeds_bound(gate_step(g, ops[0]), ops.drop_first());
    }
}

/// When `n` bodies all try to acquire before any releases, exactly
/// `min(n, bound - held)` of them are admitted.
pub proof fn lemma_gate_admits_at_most_bound(g: GateState, n: nat)
    requires
        gate_wf(g),
    ensures
        gate_run(g, acquisitions(n)).held == if g.held + n <= g.bound {
            g.held + n
        } else {
            g.bound
        },
    decreases n,
{
    if n > 0 {
        let g1 = gate_step(g, GateOp::Acquire);
        assert(acquisitions(n)[0] == GateOp::Acquire);
        assert(acquisitions(n).drop_first() =~= acquisitions((n - 1) as nat));
        lemma_gate_admits_at_most_bound(g1, (n - 1) as nat);
    }
}

/// A counting gate with a fixed bound.
pub struct ConcurrencyGate {
    bound: usize,
    held: usize,
    peak: usize,
}

impl View for ConcurrencyGate {
    type V = GateState;

    closed spec fn view(&self) -> GateState {
        GateState { bound: self.bound as nat, held: self.held as nat, peak: self.peak as nat }
    }
}

impl ConcurrencyGate {
    /// Internal consistency: the model is well formed.
    pub open spec fn wf(&self) -> bool {
        gate_wf(self@)
    }

    /// A gate with `bound` permits, none held.
    pub fn new(bound: usize) -> (r: ConcurrencyGate)
        ensures
            r.wf(),
            r@ == (GateState { bound: bound as nat, held: 0, peak: 0 }),
    {
        ConcurrencyGate { bound, held: 0, peak: 0 }
    }

    /// The bound.
    pub fn bound(&self) -> (r: usize)
        ensures
            r as nat == self@.bound,
    {
        self.bound
    }

    /// Permits held now.
    pub fn held(&self) -> (r: usize)
        ensures
            r as nat == self@.held,
    {
        self.held
    }

    /// The most permits held at once so far.
    pub fn peak(&self) -> (r: usize)
        ensures
            r as nat == self@.peak,
    {
        self.peak
    }

    /// Permits free now.
    pub fn available(&self) -> (r: usize)
        requires
            self.wf(),
        ensures
            r as nat == self@.bound - self@.held,
    {
        self.bound - self.held
    }

    /// Takes a permit if one is free.
    pub fn try_acquire(&mut self) -> (granted: bool)
        requires
            old(self).wf(),
        ensures
            final(self).wf(),
            granted == grants(old(self)@),
            final(self)@ == gate_step(old(self)@, GateOp::Acquire),
    {
        if self.held < self.bound {
            self.held = self.held + 1;
            if self.held > self.peak {
                self.peak = self.held;
            }
            true
        } else {
            false
        }
    }

    /// Gives back a permit that was held.
    pub fn release(&mut self)
        requires
            old(self).wf(),
            old(self)@.held > 0,
        ensures
            final(self).wf(),
            final(self)@ == gate_step(old(self)@, GateOp::Release),
    {
        self.held = self.held - 1;
    }
}

} // verus!
