//! A metered, cancellable job generator and the shared pending counter.
//!
//! The generator is meant to create `count` jobs, one per period. The runtime
//! races "period elapsed" against "cancellation requested" and hands the winner
//! to [`MeteredGenerator::on_event`] as a [`GenEvent`]; the returned
//! [`GenAction`] says whether to spawn a job, or to stop, and how much the
//! shared [`PendingCounter`] goes down.
use vstd::prelude::*;

verus! {

/// What woke the generator's loop.
#[derive(Debug, Clone, Copy, PartialEq, Eq)]
pub enum GenEvent {
    /// A period elapsed.
    Tick,
    /// Cancellation was requested.
    Cancelled,
}

/// What the runtime does next.
#[derive(Debug, Clone, Copy, PartialEq, Eq)]
pub enum GenAction {
    /// Create and spawn the job with this index; one job leaves the pending count.
    Spawn(u32),
    /// Stop for good; this many jobs that were never started leave the pending count.
    Stop(u32),
    /// The generator is done already; nothing happens.
    Idle,
}

/// How much an action takes off the pending counter.
pub open spec fn released(a: GenAction) -> nat {
    match a {
        GenAction::Spawn(_) => 1,
        GenAction::Stop(d) => d as nat,
        GenAction::Idle => 0,
    }
}

impl GenAction {
    /// How much this action takes off the pending counter.
    pub fn release(&self) -> (r: u32)
        ensures
            r as nat == released(*self),
    {
        match self {
            GenAction::Spawn(_) => 1,
            GenAction::Stop(d) => *d,
            GenAction::Idle => 0,
        }
    }
}

/// Mathematical model of a generator.
pub struct GenState {
    /// Jobs in the batch.
    pub count: nat,
    /// Jobs created so far.
    pub created: nat,
    /// Whether cancellation stopped it.
    pub stopped: bool,
}

/// A generator is well formed when its batch fits a `u32` and it never
/// created more than its batch.
pub open spec fn gen_wf(g: GenState) -> bool {
    g.created <= g.count && g.count <= u32::MAX
}

/// A generator is finished when it was cancelled or created its whole batch.
pub open spec fn finished(g: GenState) -> bool {
    g.stopped || g.created >= g.count
}

/// Jobs still owed to the pending counter by this generator.
pub open spec fn outstanding(g: GenState) -> nat {
    if g.stopped {
        0
    } else {
        (g.count - g.created) as nat
    }
}

/// The action that an event provokes.
pub open spec fn action_of(g: GenState, e: GenEvent) -> GenAction {
    if finished(g) {
        GenAction::Idle
    } else {
        match e {
            GenEvent::Tick => GenAction::Spawn(g.created as u32),
            GenEvent::Cancelled => GenAction::Stop((g.count - g.created) as u32),
        }
    }
}

/// The generator after an event.
pub open spec fn gen_step(g: GenState, e: GenEvent) -> GenState {
    if finished(g) {
        g
    } else {
        match e {
            GenEvent::Tick => GenState { count: g.count, created: g.created + 1, stopped: false },
            GenEvent::Cancelled => GenState { count: g.count, created: g.created, stopped: true },
        }
    }
}

/// The generator after a sequence of events.
pub open spec fn gen_run(g: GenState, es: Seq<GenEvent>) -> GenState
    decreases es.len(),
{
    if es.len() == 0 {
        g
    } else {
        gen_run(gen_step(g, es[0]), es.drop_first())
    }
}

/// The total taken off the pending counter over a sequence of events.
pub open spec fn total_released(g: GenState, es: Seq<GenEvent>) -> nat
    decreases es.len(),
{
    if es.len() == 0 {
        0
    } else {
        released(action_of(g, es[0])) + total_released(gen_step(g, es[0]), es.drop_first())
    }
}

/// Whatever events arrive, what has been released plus what is still
/// outstanding is what was outstanding at the start: the pending counter is
/// never under- or over-counted, and once the generator is finished, all of it
/// has been released.
pub proof fn lemma_release_accounting(g: GenState, es: Seq<GenEvent>)
    requires
        gen_wf(g),
    ensures
        total_released(g, es) + outstanding(gen_run(g, es)) == outstanding(g),
        gen_wf(gen_run(g, es)),
        finished(gen_run(g, es)) ==> total_released(g, es) == outstanding(g),
    decreases es.len(),
{
    if es.len() > 0 {
        lemma_release_accounting(gen_step(g, es[0]), es.drop_first());
    }
}

/// A fresh generator for a batch of `k` jobs.
pub open spec fn fresh(k: nat) -> GenState {
    GenState { count: k, created: 0, stopped: false }
}

/// `j` ticks followed by a cancellation.
pub open spec fn ticks_then_cancel(j: nat) -> Seq<GenEvent> {
    Seq::new(j, |i: int| GenEvent::Tick).push(GenEvent::Cancelled)
}

/// `j` ticks followed by a cancellation, on a fresh batch of `k > j` jobs:
/// the ticks spawn `j` jobs, the cancellation drops the other `k - j`, and the
/// pending counter goes down by exactly `k` in all.
pub proof fn lemma_cancel_after_ticks(k: nat, j: nat)
    requires
        j < k <= u32::MAX,
    ensures
        gen_run(fresh(k), ticks_then_cancel(j)) == (GenState { count: k, created: j, stopped: true }),
        total_released(fresh(k), ticks_then_cancel(j)) == k,
{
    lemma_ticks_then_cancel(fresh(k), j);
}

proof fn lemma_ticks_then_cancel(g: GenState, j: nat)
    requires
        !g.stopped,
        g.created + j < g.count <= u32::MAX,
    ensures
        gen_run(g, ticks_then_cancel(j)) == (GenState { count: g.count, created: g.created + j, stopped: true }),
        total_released(g, ticks_then_cancel(j)) == outstanding(g),
    decreases j,
{
    let es = ticks_then_cancel(j);
    if j == 0 {
        assert(es[0] == GenEvent::Cancelled);
        assert(es.drop_first() =~= Seq::<GenEvent>::empty());
        let g1 = gen_step(g, GenEvent::Cancelled);
        assert(gen_run(g1, Seq::<GenEvent>::empty()) == g1);
        assert(total_released(g1, Seq::<GenEvent>::empty()) == 0);
    } else {
        let g1 = gen_step(g, GenEvent::Tick);
        assert(es[0] == GenEvent::Tick);
        assert(es.drop_first() =~= ticks_then_cancel((j - 1) as nat));
        lemma_ticks_then_cancel(g1, (j - 1) as nat);
    }
}

/// A generator of a batch of jobs, one per period, until the batch is done or
/// cancellation is requested.
pub struct MeteredGenerator {
    count: u32,
    created: u32,
    stopped: bool,
}

impl View for MeteredGenerator {
    type V = GenState;

    closed spec fn view(&self) -> GenState {
        GenState { count: self.count as nat, created: self.created as nat, stopped: self.stopped }
    }
}

impl MeteredGenerator {
    /// Internal consistency: the model is well formed.
    pub open spec fn wf(&self) -> bool {
        gen_wf(self@)
    }

    /// A generator for a batch of `count` jobs (at least one).
    pub fn new(count: u32) -> (r: MeteredGenerator)
        requires
            count >= 1,
        ensures
            r.wf(),
            r@ == (GenState { count: count as nat, created: 0, stopped: false }),
            outstanding(r@) == count,
    {
        MeteredGenerator { count, created: 0, stopped: false }
    }

    /// Jobs in the batch.
    pub fn count(&self) -> (r: u32)
        ensures
            r as nat == self@.count,
    {
        self.count
    }

    /// Jobs created so far.
    pub fn created(&self) -> (r: u32)
        ensures
            r as nat == self@.created,
    {
        self.created
    }

    /// Whether the generator has nothing left to do.
    pub fn is_finished(&self) -> (r: bool)
        requires
            self.wf(),
        ensures
            r == finished(self@),
    {
        self.stopped || self.created >= self.count
    }

    /// Jobs that this generator still owes to the pending counter.
    pub fn outstanding(&self) -> (r: u32)
        requires
            self.wf(),
        ensures
            r as nat == outstanding(self@),
    {
        if self.stopped {
            0
        } else {
            self.count - self.created
        }
    }

    /// Reacts to one event: a tick spawns the next job, a cancellation stops
    /// the generator and releases every job that was not started, and an event
    /// after the end does nothing.
    pub fn on_event(&mut self, event: GenEvent) -> (r: GenAction)
        requires
            old(self).wf(),
        ensures
            final(self).wf(),
            r == action_of(old(self)@, event),
            final(self)@ == gen_step(old(self)@, event),
            released(r) + outstanding(final(self)@) == outstanding(old(self)@),
    {
        if self.stopped || self.created >= self.count {
            return GenAction::Idle;
        }
        match event {
            GenEvent::Tick => {
                let index = self.created;
                self.created = self.created + 1;
                GenAction::Spawn(index)
            },
            GenEvent::Cancelled => {
                self.stopped = true;
                GenAction::Stop(self.count - self.created)
            },
        }
    }
}

/// The shared count of jobs that generators have promised but not yet
/// resolved. It rises by a whole batch when a generator starts and falls by
/// what each of its actions releases; it never goes below zero.
pub struct PendingCounter {
    value: usize,
}

impl View for PendingCounter {
    type V = nat;

    closed spec fn view(&self) -> nat {
        self.value as nat
    }
}

impl PendingCounter {
    /// A counter at zero.
    pub fn new() -> (r: PendingCounter)
        ensures
            r@ == 0,
    {
        PendingCounter { value: 0 }
    }

    /// The current count.
    pub fn get(&self) -> (r: usize)
        ensures
            r as nat == self@,
    {
        self.value
    }

    /// Adds a generator's whole batch before its loop starts. Fails, changing
    /// nothing, when the count would not fit.
    pub fn register(&mut self, g: &MeteredGenerator) -> (ok: bool)
        requires
            g.wf(),
        ensures
            ok == (old(self)@ + outstanding(g@) <= usize::MAX),
            ok ==> final(self)@ == old(self)@ + outstanding(g@),
            !ok ==> final(self)@ == old(self)@,
    {
        let add = g.outstanding() as usize;
        if self.value <= usize::MAX - add {
            self.value = self.value + add;
            true
        } else {
            false
        }
    }

    /// Takes off what an action releases. Fails, changing nothing, when that is
    /// more than the count, so the count can never go below zero.
    pub fn settle(&mut self, action: GenAction) -> (ok: bool)
        ensures
            ok == (released(action) <= old(self)@),
            ok ==> final(self)@ == old(self)@ - released(action),
            !ok ==> final(self)@ == old(self)@,
    {
        let sub = action.release() as usize;
        if sub <= self.value {
            self.value = self.value - sub;
            true
        } else {
            false
        }
    }
}

} // verus!
