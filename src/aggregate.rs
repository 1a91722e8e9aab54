//! Classification and counting of job outcomes.
//!
//! Every job ends in an [`Outcome`]: the status code that the remote side
//! answered with, or a failure before any status arrived. An [`Aggregator`]
//! drains outcomes one at a time and keeps three counters, one per
//! [`OutcomeKind`]; each outcome raises exactly one counter by exactly one.
use vstd::prelude::*;

verus! {

/// The terminal outcome of one job.
#[derive(Debug, Clone, Copy, PartialEq, Eq)]
pub enum Outcome {
    /// The operation completed with this status code.
    Status(u16),
    /// The operation failed before producing a status.
    Failed,
}

/// The bucket an outcome is counted in.
#[derive(Debug, Clone, Copy, PartialEq, Eq)]
pub enum OutcomeKind {
    /// A status in 200..=299.
    Success,
    /// A status in 400..=499.
    ClientError,
    /// Any other status, and every failure.
    Other,
}

/// A success status lies in 200..=299.
pub open spec fn is_success(code: u16) -> bool {
    200 <= code < 300
}

/// A client-error status lies in 400..=499.
pub open spec fn is_client_error(code: u16) -> bool {
    400 <= code < 500
}

/// The bucket of an outcome.
pub open spec fn kind_of(o: Outcome) -> OutcomeKind {
    match o {
        Outcome::Status(code) => if is_success(code) {
            OutcomeKind::Success
        } else if is_client_error(code) {
            OutcomeKind::ClientError
        } else {
            OutcomeKind::Other
        },
        Outcome::Failed => OutcomeKind::Other,
    }
}

/// Classifies an outcome.
pub fn classify(o: Outcome) -> (r: OutcomeKind)
    ensures
        r == kind_of(o),
{
    match o {
        Outcome::Status(code) => {
            if 200 <= code && code < 300 {
                OutcomeKind::Success
            } else if 400 <= code && code < 500 {
                OutcomeKind::ClientError
            } else {
                OutcomeKind::Other
            }
        },
        Outcome::Failed => OutcomeKind::Other,
    }
}

/// Mathematical model of the three counters.
pub struct Tally {
    pub success: nat,
    pub client_error: nat,
    pub other: nat,
}

/// The sum of the three counters.
pub open spec fn tally_total(t: Tally) -> nat {
    t.success + t.client_error + t.other
}

/// The counters after one more outcome.
pub open spec fn bump(t: Tally, o: Outcome) -> Tally {
    match kind_of(o) {
        OutcomeKind::Success => Tally { success: t.success + 1, client_error: t.client_error, other: t.other },
        OutcomeKind::ClientError => Tally { success: t.success, client_error: t.client_error + 1, other: t.other },
        OutcomeKind::Other => Tally { success: t.success, client_error: t.client_error, other: t.other + 1 },
    }
}

/// The counters after a sequence of outcomes, received in order.
pub open spec fn tally_all(t: Tally, os: Seq<Outcome>) -> Tally
    decreases os.len(),
{
    if os.len() == 0 {
        t
    } else {
        tally_all(bump(t, os[0]), os.drop_first())
    }
}

/// How many outcomes of `os` fall in bucket `k`.
pub open spec fn count_kind(os: Seq<Outcome>, k: OutcomeKind) -> nat
    decreases os.len(),
{
    if os.len() == 0 {
        0
    } else {
        (if kind_of(os[0]) == k {
            1nat
        } else {
            0nat
        }) + count_kind(os.drop_first(), k)
    }
}

/// Draining a sequence of `M` outcomes raises each counter by the number of
/// outcomes of its bucket, and so the counters' sum by exactly `M`.
pub proof fn lemma_tally_matches(t: Tally, os: Seq<Outcome>)
    ensures
        tally_all(t, os).success == t.success + count_kind(os, OutcomeKind::Success),
        tally_all(t, os).client_error == t.client_error + count_kind(os, OutcomeKind::ClientError),
        tally_all(t, os).other == t.other + count_kind(os, OutcomeKind::Other),
        tally_total(tally_all(t, os)) == tally_total(t) + os.len(),
    decreases os.len(),
{
    if os.len() > 0 {
        lemma_tally_matches(bump(t, os[0]), os.drop_first());
    }
}

/// Counts outcomes by bucket.
pub struct Aggregator {
    count_200: usize,
    count_400: usize,
    count_other: usize,
}

impl View for Aggregator {
    type V = Tally;

    closed spec fn view(&self) -> Tally {
        Tally {
            success: self.count_200 as nat,
            client_error: self.count_400 as nat,
            other: self.count_other as nat,
        }
    }
}

impl Aggregator {
    /// All counters at zero.
    pub fn new() -> (r: Aggregator)
        ensures
            r@ == (Tally { success: 0, client_error: 0, other: 0 }),
    {
        Aggregator { count_200: 0, count_400: 0, count_other: 0 }
    }

    /// Outcomes counted as success.
    pub fn count_200(&self) -> (r: usize)
        ensures
            r as nat == self@.success,
    {
        self.count_200
    }

    /// Outcomes counted as client error.
    pub fn count_400(&self) -> (r: usize)
        ensures
            r as nat == self@.client_error,
    {
        self.count_400
    }

    /// Outcomes counted as other.
    pub fn count_other(&self) -> (r: usize)
        ensures
            r as nat == self@.other,
    {
        self.count_other
    }

    /// Outcomes counted in all.
    pub fn total(&self) -> (r: u128)
        ensures
            r as nat == tally_total(self@),
    {
        self.count_200 as u128 + self.count_400 as u128 + self.count_other as u128
    }

    /// Counts one outcome in its bucket.
    pub fn record(&mut self, o: Outcome) -> (kind: OutcomeKind)
        requires
            tally_total(old(self)@) < usize::MAX,
        ensures
            kind == kind_of(o),
            final(self)@ == bump(old(self)@, o),
    {
        let kind = classify(o);
        match kind {
            OutcomeKind::Success => self.count_200 = self.count_200 + 1,
            OutcomeKind::ClientError => self.count_400 = self.count_400 + 1,
            OutcomeKind::Other => self.count_other = self.count_other + 1,
        }
        kind
    }

    /// One poll of the result sink: counts the outcome if one was received and
    /// changes nothing otherwise. Returns whether something was counted.
    pub fn poll(&mut self, received: Option<Outcome>) -> (counted: bool)
        requires
            tally_total(old(self)@) < usize::MAX,
        ensures
            counted == received is Some,
            match received {
                Some(o) => final(self)@ == bump(old(self)@, o),
                None => final(self)@ == old(self)@,
            },
    {
        match received {
            Some(o) => {
                self.record(o);
                true
            },
            None => false,
        }
    }
}

} // verus!
