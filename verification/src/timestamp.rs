//! Points in time, as the seconds and nanoseconds since the Unix epoch.

use vstd::prelude::*;

verus! {

/// A point in time: whole seconds since the Unix epoch and the nanoseconds
/// into the following second.
#[derive(Debug, Clone, Copy, PartialEq, Eq, Structural)]
pub struct Timestamp {
    pub secs_since_epoch: u64,
    pub nanos_since_epoch: u32,
}

impl Timestamp {
    /// The Unix epoch.
    pub fn epoch() -> (t: Timestamp)
        ensures
            t == (Timestamp { secs_since_epoch: 0, nanos_since_epoch: 0 }),
    {
        Timestamp { secs_since_epoch: 0, nanos_since_epoch: 0 }
    }

    /// A number that grows with the point in time: seconds first, then
    /// nanoseconds.
    pub open spec fn rank(self) -> nat {
        (self.secs_since_epoch as nat) * 0x1_0000_0000 + self.nanos_since_epoch as nat
    }

    /// Whether `self` is not later than `other`.
    pub open spec fn at_most(self, other: Timestamp) -> bool {
        self.secs_since_epoch < other.secs_since_epoch || (self.secs_since_epoch
            == other.secs_since_epoch && self.nanos_since_epoch <= other.nanos_since_epoch)
    }

    /// The rank as a machine number.
    pub fn rank_value(&self) -> (r: u128)
        ensures
            r == self.rank(),
    {
        let secs: u128 = self.secs_since_epoch as u128;
        let nanos: u128 = self.nanos_since_epoch as u128;
        secs * 0x1_0000_0000u128 + nanos
    }

    /// Whether `self` is not later than `other`.
    pub fn is_at_most(&self, other: &Timestamp) -> (r: bool)
        ensures
            r == self.at_most(*other),
    {
        self.secs_since_epoch < other.secs_since_epoch || (self.secs_since_epoch
            == other.secs_since_epoch && self.nanos_since_epoch <= other.nanos_since_epoch)
    }

    /// The later of the two.
    pub fn latest(self, other: Timestamp) -> (r: Timestamp)
        ensures
            r == if self.at_most(other) { other } else { self },
    {
        if self.is_at_most(&other) {
            other
        } else {
            self
        }
    }
}

/// The rank orders points in time as `at_most` does.
pub proof fn lemma_rank_orders(a: Timestamp, b: Timestamp)
    ensures
        a.at_most(b) <==> a.rank() <= b.rank(),
        a.rank() == b.rank() <==> a == b,
{
    assert(a.at_most(b) <==> a.rank() <= b.rank()) by (nonlinear_arith)
        requires
            a.rank() == (a.secs_since_epoch as nat) * 0x1_0000_0000 + a.nanos_since_epoch as nat,
            b.rank() == (b.secs_since_epoch as nat) * 0x1_0000_0000 + b.nanos_since_epoch as nat,
            a.nanos_since_epoch < 0x1_0000_0000,
            b.nanos_since_epoch < 0x1_0000_0000,
            a.at_most(b) == (a.secs_since_epoch < b.secs_since_epoch || (a.secs_since_epoch
                == b.secs_since_epoch && a.nanos_since_epoch <= b.nanos_since_epoch)),
    ;
    assert(a.rank() == b.rank() ==> a.secs_since_epoch == b.secs_since_epoch
        && a.nanos_since_epoch == b.nanos_since_epoch) by (nonlinear_arith)
        requires
            a.rank() == (a.secs_since_epoch as nat) * 0x1_0000_0000 + a.nanos_since_epoch as nat,
            b.rank() == (b.secs_since_epoch as nat) * 0x1_0000_0000 + b.nanos_since_epoch as nat,
            a.nanos_since_epoch < 0x1_0000_0000,
            b.nanos_since_epoch < 0x1_0000_0000,
    ;
}

/// The system clock, read through `SystemTime::now` of the standard library
/// and counted from `UNIX_EPOCH`. Nothing is claimed of the value: it differs
/// from call to call.
#[verifier::external_body]
pub(crate) fn current_time() -> (t: Timestamp) {
    let since = std::time::SystemTime::now()
        .duration_since(std::time::UNIX_EPOCH)
        .unwrap_or_default();
    Timestamp { secs_since_epoch: since.as_secs(), nanos_since_epoch: since.subsec_nanos() }
}

} // verus!
